//! Discrete settlement rules: kinds, tiers, names, district roles and road
//! classes.  The geometry (positions, angles, radii) is computed by the float
//! generator around these functions.
use vstd::prelude::*;
use vstd::string::StringExecFns;
use crate::prng::{noise_bits, scaled_floor, scaled_index, spec_noise_bits, NOISE_SCALE};
use crate::text::{decimal, push_decimal};
use crate::types::TileType;

verus! {

/// Noise channel of the horizontal jitter of settlement sites.
pub const CHANNEL_X: u64 = 41u64;
/// Noise channel of the vertical jitter of settlement sites.
pub const CHANNEL_Y: u64 = 42u64;
/// Noise channel of the population roll.
pub const CHANNEL_POP: u64 = 43u64;
/// Noise channel of settlement names (the stem uses the next channel).
pub const CHANNEL_NAME: u64 = 44u64;
/// Noise channel of district and street layout.
pub const CHANNEL_LAYOUT: u64 = 45u64;
/// Noise channel of the civic-core offset.
pub const CHANNEL_CORE: u64 = 46u64;
/// Noise channel of road decisions.
pub const CHANNEL_ROAD: u64 = 47u64;
/// Noise channel of river bridges.
pub const CHANNEL_BRIDGE: u64 = 48u64;

/// Villages below this population stay as a single footprint (no district zones).
pub const VILLAGE_DISTRICT_POP_MIN: u32 = 500u32;

// A noise value `x = bits / 2^53` is below the binary64 literal `c` exactly
// when `bits` is below the least integer not smaller than `c * 2^53`.
/// Noise threshold for 0.12.
pub const NOISE_BELOW_0_12: u64 = 1080863910568919u64;
/// Noise threshold for 0.14.
pub const NOISE_BELOW_0_14: u64 = 1261007895663739u64;
/// Noise threshold for 0.18.
pub const NOISE_BELOW_0_18: u64 = 1621295865853379u64;
/// Noise threshold for 0.2.
pub const NOISE_BELOW_0_20: u64 = 1801439850948199u64;
/// Noise threshold for 0.26.
pub const NOISE_BELOW_0_26: u64 = 2341871806232658u64;
/// Noise threshold for 0.30.
pub const NOISE_BELOW_0_30: u64 = 2702159776422298u64;
/// Noise threshold for 0.32.
pub const NOISE_BELOW_0_32: u64 = 2882303761517118u64;
/// Noise threshold for 0.38.
pub const NOISE_BELOW_0_38: u64 = 3422735716801577u64;
/// Noise threshold for 0.40.
pub const NOISE_BELOW_0_40: u64 = 3602879701896397u64;
/// Noise threshold for 0.42.
pub const NOISE_BELOW_0_42: u64 = 3783023686991217u64;
/// Noise threshold for 0.5.
pub const NOISE_BELOW_0_50: u64 = 4503599627370496u64;
/// Noise threshold for 0.55.
pub const NOISE_BELOW_0_55: u64 = 4953959590107546u64;
/// Noise threshold for 0.62.
pub const NOISE_BELOW_0_62: u64 = 5584463537939415u64;
/// Noise threshold for 0.72.
pub const NOISE_BELOW_0_72: u64 = 6485183463413514u64;
/// Noise threshold for 0.78.
pub const NOISE_BELOW_0_78: u64 = 7025615418697974u64;

#[derive(Debug, Clone, Copy, PartialEq, Eq, Structural)]
pub enum SettlementKind {
    Hamlet,
    Village,
    Town,
    City,
}

#[derive(Debug, Clone, Copy, PartialEq, Eq, Structural)]
pub enum DistrictKind {
    Center,
    Market,
    Craft,
    Port,
    Temple,
    Noble,
    Forest,
    Residential,
    Outskirts,
}

#[derive(Debug, Clone, Copy, PartialEq, Eq, Structural)]
pub enum RoadKind {
    Highway,
    Secondary,
    Local,
}

#[derive(Debug, Clone, Copy, PartialEq, Eq, Structural)]
pub enum RoadSurface {
    Paved,
    Packed,
    Dirt,
}

#[derive(Debug, Clone, Copy, PartialEq, Eq, Structural)]
pub enum RoadCrossing {
    Bridge,
}

/// The integer limits of one settlement tier (population range is inclusive).
#[derive(Debug, Clone, Copy)]
pub struct TierLimits {
    pub kind: SettlementKind,
    pub pop_min: u32,
    pub pop_max: u32,
    /// One settlement of this tier per this many land candidates.
    pub per_land: usize,
    pub count_min: usize,
    pub count_max: usize,
}

/// Tier `i` in placement order, largest first: City, Town, Village, Hamlet.
pub open spec fn tier_kind(i: nat) -> SettlementKind {
    if i == 0 {
        SettlementKind::City
    } else if i == 1 {
        SettlementKind::Town
    } else if i == 2 {
        SettlementKind::Village
    } else {
        SettlementKind::Hamlet
    }
}

/// The limits of each tier as a tuple
/// `(pop_min, pop_max, per_land, count_min, count_max)`.
pub open spec fn tier_table(kind: SettlementKind) -> (u32, u32, usize, usize, usize) {
    match kind {
        SettlementKind::City => (8000, 50000, 350, 1, 6),
        SettlementKind::Town => (1200, 8000, 90, 3, 24),
        SettlementKind::Village => (150, 1200, 28, 8, 80),
        SettlementKind::Hamlet => (20, 150, 22, 12, 100),
    }
}

pub fn tier_limits(kind: SettlementKind) -> (t: TierLimits)
    ensures
        t.kind == kind,
        (t.pop_min, t.pop_max, t.per_land, t.count_min, t.count_max) == tier_table(kind),
{
    match kind {
        SettlementKind::City => TierLimits {
            kind,
            pop_min: 8000,
            pop_max: 50000,
            per_land: 350,
            count_min: 1,
            count_max: 6,
        },
        SettlementKind::Town => TierLimits {
            kind,
            pop_min: 1200,
            pop_max: 8000,
            per_land: 90,
            count_min: 3,
            count_max: 24,
        },
        SettlementKind::Village => TierLimits {
            kind,
            pop_min: 150,
            pop_max: 1200,
            per_land: 28,
            count_min: 8,
            count_max: 80,
        },
        SettlementKind::Hamlet => TierLimits {
            kind,
            pop_min: 20,
            pop_max: 150,
            per_land: 22,
            count_min: 12,
            count_max: 100,
        },
    }
}

/// The kind of tier `i` in placement order.
pub fn tier_kind_at(i: usize) -> (k: SettlementKind)
    requires
        i < 4,
    ensures
        k == tier_kind(i as nat),
{
    match i {
        0 => SettlementKind::City,
        1 => SettlementKind::Town,
        2 => SettlementKind::Village,
        _ => SettlementKind::Hamlet,
    }
}

/// How many settlements of a tier to place for `n_land` land candidates:
/// none without land, else `n_land / per_land` clamped to the tier's range.
pub open spec fn wanted_count(n_land: nat, t: TierLimits) -> nat {
    if n_land == 0 {
        0
    } else if n_land / (t.per_land as nat) < t.count_min {
        t.count_min as nat
    } else if n_land / (t.per_land as nat) > t.count_max {
        t.count_max as nat
    } else {
        n_land / (t.per_land as nat)
    }
}

pub fn target_count(n_land: usize, tier: &TierLimits) -> (n: usize)
    requires
        tier.per_land > 0,
        tier.count_min <= tier.count_max,
    ensures
        n == wanted_count(n_land as nat, *tier),
{
    if n_land == 0 {
        return 0;
    }
    let q = n_land / tier.per_land;
    if q < tier.count_min {
        tier.count_min
    } else if q > tier.count_max {
        tier.count_max
    } else {
        q
    }
}

/// Name prefix number `i` (of 38).
pub open spec fn name_prefix(i: int) -> Seq<char> {
    if i == 0 {
        "Biało"@
    } else if i == 1 {
        "Czarno"@
    } else if i == 2 {
        "Czerwono"@
    } else if i == 3 {
        "Zielono"@
    } else if i == 4 {
        "Złoto"@
    } else if i == 5 {
        "Srebrno"@
    } else if i == 6 {
        "Nowo"@
    } else if i == 7 {
        "Staro"@
    } else if i == 8 {
        "Wielko"@
    } else if i == 9 {
        "Mało"@
    } else if i == 10 {
        "Górno"@
    } else if i == 11 {
        "Dolno"@
    } else if i == 12 {
        "Leśno"@
    } else if i == 13 {
        "Polno"@
    } else if i == 14 {
        "Mokro"@
    } else if i == 15 {
        "Sucho"@
    } else if i == 16 {
        "Kamienno"@
    } else if i == 17 {
        "Piaskowo"@
    } else if i == 18 {
        "Miodowo"@
    } else if i == 19 {
        "Słoneczno"@
    } else if i == 20 {
        "Wietrzno"@
    } else if i == 21 {
        "Ciemno"@
    } else if i == 22 {
        "Jasno"@
    } else if i == 23 {
        "Dziko"@
    } else if i == 24 {
        "Wilczo"@
    } else if i == 25 {
        "Orlo"@
    } else if i == 26 {
        "Sokoło"@
    } else if i == 27 {
        "Jelenio"@
    } else if i == 28 {
        "Dębo"@
    } else if i == 29 {
        "Brzozowo"@
    } else if i == 30 {
        "Lipowo"@
    } else if i == 31 {
        "Sosnowo"@
    } else if i == 32 {
        "Grabowo"@
    } else if i == 33 {
        "Jasiono"@
    } else if i == 34 {
        "Ostrowo"@
    } else if i == 35 {
        "Brzego"@
    } else if i == 36 {
        "Rzeczno"@
    } else {
        "Jeziorno"@
    }
}

/// Name stem number `i` (of 6) for city names.
pub open spec fn stem_city(i: int) -> Seq<char> {
    if i == 0 {
        "gród"@
    } else if i == 1 {
        "port"@
    } else if i == 2 {
        "zamek"@
    } else if i == 3 {
        "stok"@
    } else if i == 4 {
        "brzeg"@
    } else {
        "góra"@
    }
}

/// Name stem number `i` (of 6) for town names.
pub open spec fn stem_town(i: int) -> Seq<char> {
    if i == 0 {
        "młyn"@
    } else if i == 1 {
        "most"@
    } else if i == 2 {
        "wola"@
    } else if i == 3 {
        "staw"@
    } else if i == 4 {
        "dwór"@
    } else {
        "bór"@
    }
}

/// Name stem number `i` (of 6) for village names.
pub open spec fn stem_village(i: int) -> Seq<char> {
    if i == 0 {
        "las"@
    } else if i == 1 {
        "gaj"@
    } else if i == 2 {
        "pole"@
    } else if i == 3 {
        "dolina"@
    } else if i == 4 {
        "łąka"@
    } else {
        "rów"@
    }
}

/// Name stem number `i` (of 6) for hamlet names.
pub open spec fn stem_hamlet(i: int) -> Seq<char> {
    if i == 0 {
        "polana"@
    } else if i == 1 {
        "zagroda"@
    } else if i == 2 {
        "kępa"@
    } else if i == 3 {
        "ostrów"@
    } else if i == 4 {
        "źródło"@
    } else {
        "uroczysko"@
    }
}

/// The 38 name prefixes.
pub fn name_prefixes() -> (a: [&'static str; 38])
    ensures
        forall|i: int| 0 <= i < 38 ==> (#[trigger] a@[i])@ == name_prefix(i),
{
    [
        "Biało",
        "Czarno",
        "Czerwono",
        "Zielono",
        "Złoto",
        "Srebrno",
        "Nowo",
        "Staro",
        "Wielko",
        "Mało",
        "Górno",
        "Dolno",
        "Leśno",
        "Polno",
        "Mokro",
        "Sucho",
        "Kamienno",
        "Piaskowo",
        "Miodowo",
        "Słoneczno",
        "Wietrzno",
        "Ciemno",
        "Jasno",
        "Dziko",
        "Wilczo",
        "Orlo",
        "Sokoło",
        "Jelenio",
        "Dębo",
        "Brzozowo",
        "Lipowo",
        "Sosnowo",
        "Grabowo",
        "Jasiono",
        "Ostrowo",
        "Brzego",
        "Rzeczno",
        "Jeziorno",
    ]
}

/// Name stem number `i` (of 6) for settlements of `kind`.
pub open spec fn name_stem(kind: SettlementKind, i: int) -> Seq<char> {
    match kind {
        SettlementKind::City => stem_city(i),
        SettlementKind::Town => stem_town(i),
        SettlementKind::Village => stem_village(i),
        SettlementKind::Hamlet => stem_hamlet(i),
    }
}

/// The six name stems of settlements of `kind`.
pub fn stems_for(kind: SettlementKind) -> (a: [&'static str; 6])
    ensures
        forall|i: int| 0 <= i < 6 ==> (#[trigger] a@[i])@ == name_stem(kind, i),
{
    match kind {
        SettlementKind::City => ["gród", "port", "zamek", "stok", "brzeg", "góra"],
        SettlementKind::Town => ["młyn", "most", "wola", "staw", "dwór", "bór"],
        SettlementKind::Village => ["las", "gaj", "pole", "dolina", "łąka", "rów"],
        SettlementKind::Hamlet => ["polana", "zagroda", "kępa", "ostrów", "źródło", "uroczysko"],
    }
}

/// The list position `pick` chooses among `len` items for a noise draw:
/// `floor(x * len)` of the noise value `x`, kept inside the list.
pub open spec fn pick_index(len: nat, seed: u64, channel: u64, index: u64) -> int {
    let n: nat = if len == 0 {
        1
    } else {
        len
    };
    let k = scaled_floor(spec_noise_bits(seed, channel, index), n as u64);
    if k < len - 1 {
        k as int
    } else {
        len - 1
    }
}

/// One of `items`, chosen by the noise value of `(seed, channel, index)`.
pub fn pick(items: &[&'static str], seed: u64, channel: u64, index: u64) -> (r: &'static str)
    requires
        1 <= items@.len() <= NOISE_SCALE,
    ensures
        r == items@[pick_index(items@.len(), seed, channel, index)],
{
    let len = items.len();
    let raw = scaled_index(noise_bits(seed, channel, index), len as u64);
    let i = if raw < (len - 1) as u64 {
        raw as usize
    } else {
        len - 1
    };
    items[i]
}

/// Name of the settlement candidate `index` of `kind` with the given salt:
/// a prefix and a kind-specific stem, each picked by noise.
#[verifier::opaque]
pub open spec fn composed_name(seed: u64, index: u64, kind: SettlementKind, salt: u64) -> Seq<
    char,
> {
    name_prefix(pick_index(38, seed, CHANNEL_NAME, index.wrapping_add((salt * 3) as u64)))
        + name_stem(
        kind,
        pick_index(6, seed, (CHANNEL_NAME + 1) as u64, index.wrapping_add((salt * 3 + 1) as u64)),
    )
}

pub fn compose_name(seed: u64, index: u64, kind: SettlementKind, salt: u64) -> (s: String)
    requires
        salt * 3 + 1 <= u64::MAX,
    ensures
        s@ == composed_name(seed, index, kind, salt),
{
    let prefixes = name_prefixes();
    let prefix = pick(&prefixes, seed, CHANNEL_NAME, index.wrapping_add(salt * 3));
    let stems = stems_for(kind);
    let stem = pick(&stems, seed, CHANNEL_NAME + 1, index.wrapping_add(salt * 3 + 1));
    let mut out = String::from_str(prefix);
    out.append(stem);
    proof {
        reveal(composed_name);
    }
    out
}

/// The set of strings held by `v`.
pub open spec fn name_set(v: Seq<String>) -> Set<Seq<char>> {
    Set::new(|x: Seq<char>| exists|i: int| 0 <= i < v.len() && (#[trigger] v[i])@ == x)
}

/// Whether `taken` already holds `name`.
pub fn contains_name(taken: &Vec<String>, name: &String) -> (r: bool)
    ensures
        r == name_set(taken@).contains(name@),
{
    let mut i: usize = 0;
    while i < taken.len()
        invariant
            i <= taken.len(),
            forall|j: int| 0 <= j < i ==> (#[trigger] taken@[j])@ != name@,
        decreases taken.len() - i,
    {
        if taken[i] == *name {
            assert(name_set(taken@).contains(name@)) by {
                assert(taken@[i as int]@ == name@);
            }
            return true;
        }
        i = i + 1;
    }
    false
}

/// Adds `name` to `taken` unless it is there already; reports whether it was new.
pub fn insert_name(taken: &mut Vec<String>, name: &String) -> (fresh: bool)
    ensures
        fresh == !name_set(old(taken)@).contains(name@),
        name_set(final(taken)@) == name_set(old(taken)@).insert(name@),
{
    if contains_name(taken, name) {
        assert(name_set(taken@) =~= name_set(taken@).insert(name@));
        false
    } else {
        let ghost before = taken@;
        taken.push(name.clone());
        proof {
            assert forall|x: Seq<char>|
                name_set(taken@).contains(x) == name_set(before).insert(name@).contains(
                    x,
                ) by {
                if name_set(before).contains(x) {
                    let i = choose|i: int| 0 <= i < before.len() && (#[trigger] before[i])@ == x;
                    assert(taken@[i] == before[i]);
                }
                if name_set(taken@).contains(x) {
                    let i = choose|i: int| 0 <= i < taken@.len() && (#[trigger] taken@[i])@ == x;
                    if i < before.len() {
                        assert(taken@[i] == before[i]);
                    }
                }
                if x == name@ {
                    assert(taken@[before.len() as int]@ == name@);
                }
            }
            assert(name_set(taken@) =~= name_set(before).insert(name@));
        }
        true
    }
}

/// The first salt, from `from` up to 63, whose composed name is not taken.
pub open spec fn first_free_salt(
    seed: u64,
    index: u64,
    kind: SettlementKind,
    taken: Set<Seq<char>>,
    from: nat,
) -> Option<nat>
    decreases 64 - from,
{
    if from >= 64 {
        None
    } else if !taken.contains(composed_name(seed, index, kind, from as u64)) {
        Some(from)
    } else {
        first_free_salt(seed, index, kind, taken, from + 1)
    }
}

/// The unique settlement name chosen against the names already taken: the
/// composed name of the first free salt, or, when all 64 salts clash, the
/// salt-0 name followed by `-` and the candidate index.
pub open spec fn unique_settlement_name(
    seed: u64,
    index: u64,
    kind: SettlementKind,
    taken: Set<Seq<char>>,
) -> Seq<char> {
    match first_free_salt(seed, index, kind, taken, 0) {
        Some(s) => composed_name(seed, index, kind, s as u64),
        None => composed_name(seed, index, kind, 0) + "-"@ + decimal(index as nat),
    }
}

pub fn unique_name(seed: u64, index: u64, kind: SettlementKind, taken: &mut Vec<String>) -> (s:
    String)
    ensures
        s@ == unique_settlement_name(seed, index, kind, name_set(old(taken)@)),
        name_set(final(taken)@) == name_set(old(taken)@).insert(s@),
{
    let ghost start = name_set(taken@);
    let mut salt: u64 = 0;
    while salt < 64
        invariant
            salt <= 64,
            start == name_set(old(taken)@),
            name_set(taken@) == start,
            first_free_salt(seed, index, kind, start, 0) == first_free_salt(
                seed,
                index,
                kind,
                start,
                salt as nat,
            ),
        decreases 64 - salt,
    {
        let name = compose_name(seed, index, kind, salt);
        if !contains_name(taken, &name) {
            let fresh = insert_name(taken, &name);
            assert(first_free_salt(seed, index, kind, start, salt as nat) == Some(salt as nat));
            return name;
        }
        assert(first_free_salt(seed, index, kind, start, salt as nat) == first_free_salt(
            seed,
            index,
            kind,
            start,
            (salt + 1) as nat,
        ));
        salt = salt + 1;
    }
    let mut fallback = compose_name(seed, index, kind, 0);
    fallback.append("-");
    push_decimal(&mut fallback, index);
    assert(first_free_salt(seed, index, kind, start, 64) is None);
    let _ = insert_name(taken, &fallback);
    proof {
        reveal_strlit("-");
    }
    fallback
}

/// Every name handed out is afterwards taken, so a second request for the
/// same candidate can never return a name that is still free.
pub proof fn law_unique_name_is_fresh(
    seed: u64,
    index: u64,
    kind: SettlementKind,
    taken: Set<Seq<char>>,
)
    ensures
        first_free_salt(seed, index, kind, taken, 0) is Some ==> !taken.contains(
            unique_settlement_name(seed, index, kind, taken),
        ),
{
    lemma_first_free_salt_free(seed, index, kind, taken, 0);
}

proof fn lemma_first_free_salt_free(
    seed: u64,
    index: u64,
    kind: SettlementKind,
    taken: Set<Seq<char>>,
    from: nat,
)
    ensures
        first_free_salt(seed, index, kind, taken, from) matches Some(s) ==> !taken.contains(
            composed_name(seed, index, kind, s as u64),
        ) && s < 64,
    decreases 64 - from,
{
    if from < 64 && taken.contains(composed_name(seed, index, kind, from as u64)) {
        lemma_first_free_salt_free(seed, index, kind, taken, from + 1);
    }
}

pub fn is_forest_biome(biome: TileType) -> (r: bool)
    ensures
        r == (biome == TileType::Forest || biome == TileType::Rainforest || biome
            == TileType::Shrubland),
{
    match biome {
        TileType::Forest | TileType::Rainforest | TileType::Shrubland => true,
        _ => false,
    }
}

/// Cities and towns always get district zones, villages from
/// `VILLAGE_DISTRICT_POP_MIN` inhabitants, hamlets never.
pub open spec fn has_districts(kind: SettlementKind, population: u32) -> bool {
    match kind {
        SettlementKind::City | SettlementKind::Town => true,
        SettlementKind::Village => population >= VILLAGE_DISTRICT_POP_MIN,
        SettlementKind::Hamlet => false,
    }
}

pub fn wants_districts(kind: SettlementKind, population: u32) -> (r: bool)
    ensures
        r == has_districts(kind, population),
{
    match kind {
        SettlementKind::City | SettlementKind::Town => true,
        SettlementKind::Village => population >= VILLAGE_DISTRICT_POP_MIN,
        SettlementKind::Hamlet => false,
    }
}

/// Districts that count as housing.
pub open spec fn is_housing(k: DistrictKind) -> bool {
    k == DistrictKind::Residential || k == DistrictKind::Noble
}

/// Number of housing districts in `s`.
pub open spec fn housing(s: Seq<DistrictKind>) -> nat
    decreases s.len(),
{
    if s.len() == 0 {
        0
    } else {
        housing(s.drop_last()) + if is_housing(s.last()) {
            1nat
        } else {
            0nat
        }
    }
}

/// The first position at or after `from` holding `k`.
pub open spec fn first_from(s: Seq<DistrictKind>, k: DistrictKind, from: nat) -> Option<nat>
    decreases s.len() - from,
{
    if from >= s.len() {
        None
    } else if s[from as int] == k {
        Some(from)
    } else {
        first_from(s, k, from + 1)
    }
}

/// The first position of `s` holding `k`.
pub open spec fn first_of(s: Seq<DistrictKind>, k: DistrictKind) -> Option<nat> {
    first_from(s, k, 0)
}

proof fn lemma_first_from(s: Seq<DistrictKind>, k: DistrictKind, from: nat)
    ensures
        first_from(s, k, from) matches Some(i) ==> from <= i < s.len() && s[i as int] == k && (
        forall|j: int| from <= j < i ==> s[j] != k),
        first_from(s, k, from) is None ==> forall|j: int| from <= j < s.len() ==> s[j] != k,
    decreases s.len() - from,
{
    if from < s.len() && s[from as int] != k {
        lemma_first_from(s, k, from + 1);
    }
}

pub fn first_residential(kinds: &[DistrictKind]) -> (r: Option<usize>)
    ensures
        match r {
            Some(i) => first_of(kinds@, DistrictKind::Residential) == Some(i as nat),
            None => first_of(kinds@, DistrictKind::Residential) is None,
        },
{
    let mut i: usize = 0;
    while i < kinds.len()
        invariant
            i <= kinds@.len(),
            first_of(kinds@, DistrictKind::Residential) == first_from(
                kinds@,
                DistrictKind::Residential,
                i as nat,
            ),
        decreases kinds.len() - i,
    {
        if kinds[i] == DistrictKind::Residential {
            return Some(i);
        }
        i = i + 1;
    }
    None
}

/// The first position of a district of kind `k`.
pub fn position_of(kinds: &[DistrictKind], k: DistrictKind) -> (r: Option<usize>)
    ensures
        match r {
            Some(i) => first_of(kinds@, k) == Some(i as nat),
            None => first_of(kinds@, k) is None,
        },
{
    let mut i: usize = 0;
    while i < kinds.len()
        invariant
            i <= kinds@.len(),
            first_of(kinds@, k) == first_from(kinds@, k, i as nat),
        decreases kinds.len() - i,
    {
        if kinds[i] == k {
            return Some(i);
        }
        i = i + 1;
    }
    None
}

pub fn housing_count(kinds: &[DistrictKind]) -> (n: usize)
    ensures
        n == housing(kinds@),
{
    let mut n: usize = 0;
    let mut i: usize = 0;
    while i < kinds.len()
        invariant
            i <= kinds@.len(),
            n == housing(kinds@.take(i as int)),
            n <= i,
        decreases kinds.len() - i,
    {
        assert(kinds@.take(i as int + 1).drop_last() =~= kinds@.take(i as int));
        if kinds[i] == DistrictKind::Residential || kinds[i] == DistrictKind::Noble {
            n = n + 1;
        }
        i = i + 1;
    }
    assert(kinds@.take(kinds@.len() as int) =~= kinds@);
    n
}

/// Whether residential slot `i` may become `next`: only housing slots
/// convert, and a conversion that removes housing must leave at least
/// `min_housing` housing districts.
pub open spec fn conversion_allowed(
    s: Seq<DistrictKind>,
    i: int,
    next: DistrictKind,
    min_housing: nat,
) -> bool {
    &&& s[i] == DistrictKind::Residential
    &&& (is_housing(next) || (if housing(s) == 0 {
        0
    } else {
        housing(s) - 1
    }) >= min_housing)
}

/// `s` after trying to turn slot `i` into `next`.
pub open spec fn converted(s: Seq<DistrictKind>, i: int, next: DistrictKind, min_housing: nat) -> Seq<
    DistrictKind,
> {
    if conversion_allowed(s, i, next, min_housing) {
        s.update(i, next)
    } else {
        s
    }
}

pub fn convert_slot(kinds: &mut Vec<DistrictKind>, i: usize, next: DistrictKind, min_housing: usize) -> (ok:
    bool)
    requires
        i < old(kinds)@.len(),
    ensures
        ok == conversion_allowed(old(kinds)@, i as int, next, min_housing as nat),
        final(kinds)@ == converted(old(kinds)@, i as int, next, min_housing as nat),
        final(kinds)@.len() == old(kinds)@.len(),
{
    if kinds[i] != DistrictKind::Residential {
        return false;
    }
    let keeps_housing = next == DistrictKind::Residential || next == DistrictKind::Noble;
    if !keeps_housing && housing_count(kinds.as_slice()).saturating_sub(1) < min_housing {
        return false;
    }
    kinds.set(i, next);
    true
}

proof fn lemma_housing_update(s: Seq<DistrictKind>, i: int, k: DistrictKind)
    requires
        0 <= i < s.len(),
    ensures
        housing(s.update(i, k)) + (if is_housing(s[i]) {
            1int
        } else {
            0int
        }) == housing(s) + (if is_housing(k) {
            1int
        } else {
            0int
        }),
    decreases s.len(),
{
    let t = s.update(i, k);
    if i == s.len() - 1 {
        assert(t.drop_last() =~= s.drop_last());
    } else {
        lemma_housing_update(s.drop_last(), i, k);
        assert(t.drop_last() =~= s.drop_last().update(i, k));
    }
}

/// A slot conversion never takes the number of housing districts below the
/// minimum it is given, once that minimum is reached.
pub proof fn law_conversion_keeps_housing(
    s: Seq<DistrictKind>,
    i: int,
    next: DistrictKind,
    min_housing: nat,
)
    requires
        0 <= i < s.len(),
        housing(s) >= min_housing,
    ensures
        housing(converted(s, i, next, min_housing)) >= min_housing,
        converted(s, i, next, min_housing).len() == s.len(),
{
    if conversion_allowed(s, i, next, min_housing) {
        lemma_housing_update(s, i, next);
    }
}

/// `s` with its first residential slot turned into `next` (when allowed).
pub open spec fn convert_first(s: Seq<DistrictKind>, next: DistrictKind, min_housing: nat) -> Seq<
    DistrictKind,
> {
    match first_of(s, DistrictKind::Residential) {
        Some(i) => converted(s, i as int, next, min_housing),
        None => s,
    }
}

fn convert_first_residential(kinds: &mut Vec<DistrictKind>, next: DistrictKind, min_housing: usize)
    ensures
        final(kinds)@ == convert_first(old(kinds)@, next, min_housing as nat),
        final(kinds)@.len() == old(kinds)@.len(),
{
    proof {
        lemma_first_from(kinds@, DistrictKind::Residential, 0);
    }
    let ghost before = kinds@;
    let found = first_residential(kinds.as_slice());
    match found {
        Some(i) => {
            assert(first_of(before, DistrictKind::Residential) == Some(i as nat));
            let _ = convert_slot(kinds, i, next, min_housing);
        },
        None => {
            assert(first_of(before, DistrictKind::Residential) is None);
        },
    }
}

/// Number of housing districts a settlement of `kind` keeps.
pub open spec fn min_housing_for(kind: SettlementKind) -> nat {
    match kind {
        SettlementKind::City => 3,
        SettlementKind::Town => 2,
        _ => 1,
    }
}

/// The market quarter on the first residential slot, then a craft quarter
/// on its right neighbour, else its left neighbour, else the first free
/// residential slot.
pub open spec fn with_market_and_craft(s: Seq<DistrictKind>, min_housing: nat) -> Seq<DistrictKind> {
    let s1 = convert_first(s, DistrictKind::Market, min_housing);
    match first_of(s1, DistrictKind::Market) {
        None => s1,
        Some(mi) => {
            let n: int = s1.len() as int;
            let right: int = (mi as int + 1) % n;
            let left: int = (mi as int + n - 1) % n;
            if conversion_allowed(s1, right, DistrictKind::Craft, min_housing) {
                converted(s1, right, DistrictKind::Craft, min_housing)
            } else if conversion_allowed(s1, left, DistrictKind::Craft, min_housing) {
                converted(s1, left, DistrictKind::Craft, min_housing)
            } else {
                convert_first(s1, DistrictKind::Craft, min_housing)
            }
        },
    }
}

/// The inner (civic) ring of `n` wedges: residential everywhere, then for a
/// city or town a market and a craft quarter, for a city a noble quarter
/// and (on a noise roll below 0.62) a temple, for a town a temple on a roll
/// below 0.40; finally woodland on `forest_slot` when forest is near.
pub open spec fn inner_ring(
    kind: SettlementKind,
    n: nat,
    seed: u64,
    index: u64,
    forest_slot: Option<nat>,
) -> Seq<DistrictKind> {
    let min = min_housing_for(kind);
    let s1 = civic_ring(
        kind,
        Seq::new(n, |j: int| DistrictKind::Residential),
        spec_noise_bits(seed, CHANNEL_LAYOUT, index.wrapping_add(8)),
        min,
    );
    match forest_slot {
        Some(i) => converted(s1, i as int, DistrictKind::Forest, min),
        None => s1,
    }
}

/// The civic quarters placed on ring `s`, with `roll` the temple noise bits.
pub open spec fn civic_ring(kind: SettlementKind, s: Seq<DistrictKind>, roll: u64, min: nat) -> Seq<
    DistrictKind,
> {
    if kind == SettlementKind::City {
        let a = with_market_and_craft(s, min);
        let b = convert_first(a, DistrictKind::Noble, min);
        if roll < NOISE_BELOW_0_62 {
            convert_first(b, DistrictKind::Temple, min)
        } else {
            b
        }
    } else if kind == SettlementKind::Town {
        let a = with_market_and_craft(s, min);
        if roll < NOISE_BELOW_0_40 {
            convert_first(a, DistrictKind::Temple, min)
        } else {
            a
        }
    } else {
        s
    }
}

/// The first slot in `order` that is still outskirts.
pub open spec fn first_outskirts_in(s: Seq<DistrictKind>, order: Seq<usize>, from: nat) -> Option<
    nat,
>
    decreases order.len() - from,
{
    if from >= order.len() {
        None
    } else if s[order[from as int] as int] == DistrictKind::Outskirts {
        Some(order[from as int] as nat)
    } else {
        first_outskirts_in(s, order, from + 1)
    }
}

/// `s` after up to `count` rounds, each turning the outskirts slot that comes
/// first in `order` (nearest to the wanted direction) into `kind`; stops as
/// soon as no outskirts slot is left.
pub open spec fn placed_nearest(
    s: Seq<DistrictKind>,
    order: Seq<usize>,
    kind: DistrictKind,
    count: nat,
) -> Seq<DistrictKind>
    decreases count,
{
    if count == 0 {
        s
    } else {
        match first_outskirts_in(s, order, 0) {
            Some(i) => placed_nearest(s.update(i as int, kind), order, kind, (count - 1) as nat),
            None => s,
        }
    }
}

/// `s` with the first `count` outskirts slots turned residential (suburbs).
pub open spec fn promote_suburbs(s: Seq<DistrictKind>, count: nat) -> Seq<DistrictKind>
    decreases count,
{
    if count == 0 {
        s
    } else {
        match first_of(s, DistrictKind::Outskirts) {
            Some(i) => promote_suburbs(s.update(i as int, DistrictKind::Residential), (count - 1) as nat),
            None => s,
        }
    }
}

/// Number of outskirts slots in `s`.
pub open spec fn outskirts_count(s: Seq<DistrictKind>) -> nat
    decreases s.len(),
{
    if s.len() == 0 {
        0
    } else {
        outskirts_count(s.drop_last()) + if s.last() == DistrictKind::Outskirts {
            1nat
        } else {
            0nat
        }
    }
}

/// The last position of `s` at or before `upto` (exclusive) holding `k`.
pub open spec fn last_before(s: Seq<DistrictKind>, k: DistrictKind, upto: nat) -> Option<nat>
    decreases upto,
{
    if upto == 0 {
        None
    } else if s[upto - 1] == k {
        Some((upto - 1) as nat)
    } else {
        last_before(s, k, (upto - 1) as nat)
    }
}

/// The outer ring of `n` wedges: outskirts everywhere, a port toward the
/// water, woodland toward the forest (two wedges for a city, one otherwise);
/// a village or hamlet then houses every remaining wedge but keeps its last
/// residential wedge (with two or more wedges) as outskirts, while a city or
/// town turns its first one (city: two) outskirts into suburbs, always
/// leaving one.
pub open spec fn outer_ring(
    kind: SettlementKind,
    n: nat,
    water_order: Option<Seq<usize>>,
    forest_order: Option<Seq<usize>>,
) -> Seq<DistrictKind> {
    let s0 = Seq::new(n, |j: int| DistrictKind::Outskirts);
    let s1 = match water_order {
        Some(o) => placed_nearest(s0, o, DistrictKind::Port, 1),
        None => s0,
    };
    let forest_n: nat = if kind == SettlementKind::City {
        if n < 2 {
            n
        } else {
            2
        }
    } else {
        if n < 1 {
            n
        } else {
            1
        }
    };
    let s2 = match forest_order {
        Some(o) => placed_nearest(s1, o, DistrictKind::Forest, forest_n),
        None => s1,
    };
    if kind == SettlementKind::Village || kind == SettlementKind::Hamlet {
        let s3 = Seq::new(
            n,
            |j: int|
                if s2[j] == DistrictKind::Outskirts {
                    DistrictKind::Residential
                } else {
                    s2[j]
                },
        );
        if n >= 2 {
            match last_before(s3, DistrictKind::Residential, n) {
                Some(i) => s3.update(i as int, DistrictKind::Outskirts),
                None => s3,
            }
        } else {
            s3
        }
    } else {
        let leftover = outskirts_count(s2);
        let wanted: nat = if kind == SettlementKind::City {
            2
        } else {
            1
        };
        let spare: nat = if leftover == 0 {
            0
        } else {
            (leftover - 1) as nat
        };
        promote_suburbs(
            s2,
            if wanted < spare {
                wanted
            } else {
                spare
            },
        )
    }
}

/// The first slot listed in `order` that is still outskirts.
pub fn first_outskirts(kinds: &[DistrictKind], order: &[usize]) -> (r: Option<usize>)
    requires
        forall|j: int| 0 <= j < order@.len() ==> (#[trigger] order@[j]) < kinds@.len(),
    ensures
        match r {
            Some(i) => first_outskirts_in(kinds@, order@, 0) == Some(i as nat) && i < kinds@.len(),
            None => first_outskirts_in(kinds@, order@, 0) is None,
        },
{
    let mut j: usize = 0;
    while j < order.len()
        invariant
            j <= order@.len(),
            forall|t: int| 0 <= t < order@.len() ==> (#[trigger] order@[t]) < kinds@.len(),
            first_outskirts_in(kinds@, order@, 0) == first_outskirts_in(kinds@, order@, j as nat),
        decreases order.len() - j,
    {
        let slot = order[j];
        if kinds[slot] == DistrictKind::Outskirts {
            return Some(slot);
        }
        j = j + 1;
    }
    None
}

/// Up to `n` times, turns the outskirts slot that comes first in `order`
/// into `kind`.  `order` lists the slots by increasing angular distance of
/// their mid-angle from the wanted direction (ties by slot index).
pub fn place_nearest(kinds: &mut Vec<DistrictKind>, order: &[usize], kind: DistrictKind, n: usize)
    requires
        forall|j: int| 0 <= j < order@.len() ==> (#[trigger] order@[j]) < old(kinds)@.len(),
    ensures
        final(kinds)@ == placed_nearest(old(kinds)@, order@, kind, n as nat),
        final(kinds)@.len() == old(kinds)@.len(),
{
    let mut r: usize = 0;
    while r < n
        invariant
            r <= n,
            kinds@.len() == old(kinds)@.len(),
            forall|j: int| 0 <= j < order@.len() ==> (#[trigger] order@[j]) < kinds@.len(),
            placed_nearest(old(kinds)@, order@, kind, n as nat) == placed_nearest(
                kinds@,
                order@,
                kind,
                (n - r) as nat,
            ),
        decreases n - r,
    {
        match first_outskirts(kinds.as_slice(), order) {
            Some(i) => {
                kinds.set(i, kind);
            },
            None => {
                return ;
            },
        }
        r = r + 1;
    }
}

/// The inner ring of `n` wedges of a settlement with districts.
pub fn inner_ring_kinds(
    kind: SettlementKind,
    n: usize,
    seed: u64,
    index: u64,
    forest_slot: Option<usize>,
) -> (v: Vec<DistrictKind>)
    requires
        1 <= n <= usize::MAX / 2,
        forest_slot matches Some(i) ==> i < n,
    ensures
        v@ == inner_ring(
            kind,
            n as nat,
            seed,
            index,
            match forest_slot {
                Some(i) => Some(i as nat),
                None => None,
            },
        ),
{
    let min_housing: usize = match kind {
        SettlementKind::City => 3,
        SettlementKind::Town => 2,
        _ => 1,
    };
    let mut inner: Vec<DistrictKind> = Vec::new();
    let mut j: usize = 0;
    while j < n
        invariant
            j <= n,
            inner@ == Seq::new(j as nat, |t: int| DistrictKind::Residential),
        decreases n - j,
    {
        inner.push(DistrictKind::Residential);
        j = j + 1;
    }
    let ghost s0 = inner@;
    let roll = noise_bits(seed, CHANNEL_LAYOUT, index.wrapping_add(8));
    if kind == SettlementKind::City || kind == SettlementKind::Town {
        convert_first_residential(&mut inner, DistrictKind::Market, min_housing);
        let ghost s1 = inner@;
        proof {
            lemma_first_from(s1, DistrictKind::Market, 0);
        }
        if let Some(mi) = position_of(inner.as_slice(), DistrictKind::Market) {
            let right = (mi + 1) % n;
            let left = (mi + n - 1) % n;
            if !convert_slot(&mut inner, right, DistrictKind::Craft, min_housing) && !convert_slot(
                &mut inner,
                left,
                DistrictKind::Craft,
                min_housing,
            ) {
                convert_first_residential(&mut inner, DistrictKind::Craft, min_housing);
            }
        }
        assert(inner@ == with_market_and_craft(s0, min_housing as nat));
        if kind == SettlementKind::City {
            convert_first_residential(&mut inner, DistrictKind::Noble, min_housing);
            if roll < NOISE_BELOW_0_62 {
                convert_first_residential(&mut inner, DistrictKind::Temple, min_housing);
            }
        } else if roll < NOISE_BELOW_0_40 {
            convert_first_residential(&mut inner, DistrictKind::Temple, min_housing);
        }
    }
    if let Some(i) = forest_slot {
        let _ = convert_slot(&mut inner, i, DistrictKind::Forest, min_housing);
    }
    inner
}

/// The last position of `kinds` holding `k`.
fn last_position_of(kinds: &[DistrictKind], k: DistrictKind) -> (r: Option<usize>)
    ensures
        match r {
            Some(i) => last_before(kinds@, k, kinds@.len()) == Some(i as nat),
            None => last_before(kinds@, k, kinds@.len()) is None,
        },
{
    let mut j: usize = kinds.len();
    while j > 0
        invariant
            j <= kinds@.len(),
            last_before(kinds@, k, kinds@.len()) == last_before(kinds@, k, j as nat),
        decreases j,
    {
        if kinds[j - 1] == k {
            return Some(j - 1);
        }
        j = j - 1;
    }
    None
}

fn count_outskirts(kinds: &[DistrictKind]) -> (c: usize)
    ensures
        c == outskirts_count(kinds@),
{
    let mut c: usize = 0;
    let mut i: usize = 0;
    while i < kinds.len()
        invariant
            i <= kinds@.len(),
            c == outskirts_count(kinds@.take(i as int)),
            c <= i,
        decreases kinds.len() - i,
    {
        assert(kinds@.take(i as int + 1).drop_last() =~= kinds@.take(i as int));
        if kinds[i] == DistrictKind::Outskirts {
            c = c + 1;
        }
        i = i + 1;
    }
    assert(kinds@.take(kinds@.len() as int) =~= kinds@);
    c
}

/// The outer ring of `n` wedges of a settlement with districts; the orders
/// list the wedges nearest to the water and to the woodland first.
pub fn outer_ring_kinds(
    kind: SettlementKind,
    n: usize,
    water_order: &Option<Vec<usize>>,
    forest_order: &Option<Vec<usize>>,
) -> (v: Vec<DistrictKind>)
    requires
        water_order matches Some(o) ==> forall|j: int|
            0 <= j < o@.len() ==> (#[trigger] o@[j]) < n,
        forest_order matches Some(o) ==> forall|j: int|
            0 <= j < o@.len() ==> (#[trigger] o@[j]) < n,
    ensures
        v@ == outer_ring(
            kind,
            n as nat,
            match water_order {
                Some(o) => Some(o@),
                None => None,
            },
            match forest_order {
                Some(o) => Some(o@),
                None => None,
            },
        ),
{
    let mut outer: Vec<DistrictKind> = Vec::new();
    let mut j: usize = 0;
    while j < n
        invariant
            j <= n,
            outer@ == Seq::new(j as nat, |t: int| DistrictKind::Outskirts),
        decreases n - j,
    {
        outer.push(DistrictKind::Outskirts);
        j = j + 1;
    }
    if let Some(o) = water_order {
        place_nearest(&mut outer, o.as_slice(), DistrictKind::Port, 1);
    }
    let forest_n: usize = if kind == SettlementKind::City {
        if n < 2 {
            n
        } else {
            2
        }
    } else {
        if n < 1 {
            n
        } else {
            1
        }
    };
    if let Some(o) = forest_order {
        place_nearest(&mut outer, o.as_slice(), DistrictKind::Forest, forest_n);
    }
    let ghost s2 = outer@;
    if kind == SettlementKind::Village || kind == SettlementKind::Hamlet {
        let mut k: usize = 0;
        while k < n
            invariant
                k <= n,
                outer@.len() == n,
                forall|t: int|
                    0 <= t < k ==> outer@[t] == (if s2[t] == DistrictKind::Outskirts {
                        DistrictKind::Residential
                    } else {
                        s2[t]
                    }),
                forall|t: int| k <= t < n ==> outer@[t] == s2[t],
            decreases n - k,
        {
            if outer[k] == DistrictKind::Outskirts {
                outer.set(k, DistrictKind::Residential);
            }
            k = k + 1;
        }
        let ghost s3 = outer@;
        assert(s3 =~= Seq::new(
            n as nat,
            |t: int|
                if s2[t] == DistrictKind::Outskirts {
                    DistrictKind::Residential
                } else {
                    s2[t]
                },
        ));
        if n >= 2 {
            if let Some(i) = last_position_of(outer.as_slice(), DistrictKind::Residential) {
                proof {
                    lemma_last_before(s3, DistrictKind::Residential, n as nat);
                }
                outer.set(i, DistrictKind::Outskirts);
            }
        }
    } else {
        let leftover = count_outskirts(outer.as_slice());
        let wanted: usize = if kind == SettlementKind::City {
            2
        } else {
            1
        };
        let spare = leftover.saturating_sub(1);
        let suburb_n = if wanted < spare {
            wanted
        } else {
            spare
        };
        let mut placed: usize = 0;
        let mut k: usize = 0;
        while k < n && placed < suburb_n
            invariant
                k <= n,
                placed <= suburb_n,
                outer@.len() == n,
                forall|t: int| 0 <= t < k ==> outer@[t] != DistrictKind::Outskirts,
                promote_suburbs(s2, suburb_n as nat) == promote_suburbs(
                    outer@,
                    (suburb_n - placed) as nat,
                ),
            decreases n - k,
        {
            if outer[k] == DistrictKind::Outskirts {
                proof {
                    lemma_first_from(outer@, DistrictKind::Outskirts, 0);
                    assert(first_of(outer@, DistrictKind::Outskirts) == Some(k as nat));
                }
                outer.set(k, DistrictKind::Residential);
                placed = placed + 1;
            }
            k = k + 1;
        }
        proof {
            if placed < suburb_n {
                lemma_first_from(outer@, DistrictKind::Outskirts, 0);
            }
        }
    }
    outer
}

proof fn lemma_last_before(s: Seq<DistrictKind>, k: DistrictKind, upto: nat)
    requires
        upto <= s.len(),
    ensures
        last_before(s, k, upto) matches Some(i) ==> i < upto && s[i as int] == k,
    decreases upto,
{
    if upto > 0 && s[upto - 1] != k {
        lemma_last_before(s, k, (upto - 1) as nat);
    }
}

/// No slot of `s` holds `k`.
pub open spec fn lacks(s: Seq<DistrictKind>, k: DistrictKind) -> bool {
    forall|j: int| 0 <= j < s.len() ==> s[j] != k
}

/// Some slot of `s` holds `k`.
pub open spec fn holds(s: Seq<DistrictKind>, k: DistrictKind) -> bool {
    exists|j: int| 0 <= j < s.len() && s[j] == k
}

proof fn lemma_converted_frame(s: Seq<DistrictKind>, i: int, next: DistrictKind, m: nat)
    requires
        0 <= i < s.len(),
    ensures
        converted(s, i, next, m).len() == s.len(),
        forall|p: int|
            0 <= p < s.len() && s[p] != DistrictKind::Residential ==> converted(s, i, next, m)[p]
                == s[p],
        forall|p: int|
            0 <= p < s.len() ==> converted(s, i, next, m)[p] == s[p] || converted(s, i, next, m)[p]
                == next,
{
}

proof fn lemma_convert_first_frame(s: Seq<DistrictKind>, next: DistrictKind, m: nat)
    ensures
        convert_first(s, next, m).len() == s.len(),
        forall|p: int|
            0 <= p < s.len() && s[p] != DistrictKind::Residential ==> convert_first(s, next, m)[p]
                == s[p],
        forall|p: int|
            0 <= p < s.len() ==> convert_first(s, next, m)[p] == s[p] || convert_first(s, next, m)[p]
                == next,
{
    lemma_first_from(s, DistrictKind::Residential, 0);
    if let Some(i) = first_of(s, DistrictKind::Residential) {
        lemma_converted_frame(s, i as int, next, m);
    }
}

proof fn lemma_market_craft_frame(s: Seq<DistrictKind>, m: nat)
    requires
        s.len() >= 1,
    ensures
        with_market_and_craft(s, m).len() == s.len(),
        forall|p: int|
            0 <= p < s.len() && s[p] != DistrictKind::Residential ==> with_market_and_craft(s, m)[p]
                == s[p],
        forall|p: int|
            0 <= p < s.len() ==> #[trigger] with_market_and_craft(s, m)[p] == s[p]
                || with_market_and_craft(s, m)[p] == DistrictKind::Market || with_market_and_craft(
                s,
                m,
            )[p] == DistrictKind::Craft,
{
    lemma_convert_first_frame(s, DistrictKind::Market, m);
    let s1 = convert_first(s, DistrictKind::Market, m);
    lemma_first_from(s1, DistrictKind::Market, 0);
    if let Some(mi) = first_of(s1, DistrictKind::Market) {
        let n = s1.len() as int;
        let right = (mi as int + 1) % n;
        let left = (mi as int + n - 1) % n;
        lemma_converted_frame(s1, right, DistrictKind::Craft, m);
        lemma_converted_frame(s1, left, DistrictKind::Craft, m);
        lemma_convert_first_frame(s1, DistrictKind::Craft, m);
    }
}

/// Every wedge of the inner ring is residential, a civic quarter
/// (market, craft, noble, temple) or woodland: never a port or outskirts.
pub proof fn law_inner_ring_roles(
    kind: SettlementKind,
    n: nat,
    seed: u64,
    index: u64,
    forest_slot: Option<nat>,
)
    requires
        n >= 1,
        forest_slot matches Some(i) ==> i < n,
    ensures
        inner_ring(kind, n, seed, index, forest_slot).len() == n,
        lacks(inner_ring(kind, n, seed, index, forest_slot), DistrictKind::Port),
        lacks(inner_ring(kind, n, seed, index, forest_slot), DistrictKind::Outskirts),
        forest_slot is None ==> lacks(
            inner_ring(kind, n, seed, index, forest_slot),
            DistrictKind::Forest,
        ),
{
    let min = min_housing_for(kind);
    let s0 = Seq::new(n, |j: int| DistrictKind::Residential);
    let roll = spec_noise_bits(seed, CHANNEL_LAYOUT, index.wrapping_add(8));
    lemma_civic_ring_roles(kind, s0, roll, min);
    let s1 = civic_ring(kind, s0, roll, min);
    if let Some(i) = forest_slot {
        lemma_converted_frame(s1, i as int, DistrictKind::Forest, min);
    }
}

proof fn lemma_civic_ring_roles(kind: SettlementKind, s0: Seq<DistrictKind>, roll: u64, min: nat)
    requires
        s0.len() >= 1,
        forall|p: int| 0 <= p < s0.len() ==> s0[p] == DistrictKind::Residential,
    ensures
        civic_ring(kind, s0, roll, min).len() == s0.len(),
        forall|p: int|
            0 <= p < s0.len() ==> #[trigger] civic_ring(kind, s0, roll, min)[p]
                == DistrictKind::Residential || civic_ring(kind, s0, roll, min)[p]
                == DistrictKind::Market || civic_ring(kind, s0, roll, min)[p] == DistrictKind::Craft
                || civic_ring(kind, s0, roll, min)[p] == DistrictKind::Noble || civic_ring(
                kind,
                s0,
                roll,
                min,
            )[p] == DistrictKind::Temple,
{
    lemma_market_craft_frame(s0, min);
    let a = with_market_and_craft(s0, min);
    lemma_convert_first_frame(a, DistrictKind::Noble, min);
    let b = convert_first(a, DistrictKind::Noble, min);
    lemma_convert_first_frame(b, DistrictKind::Temple, min);
    lemma_convert_first_frame(a, DistrictKind::Temple, min);
    let c = civic_ring(kind, s0, roll, min);
    assert forall|p: int| 0 <= p < s0.len() implies #[trigger] c[p] == DistrictKind::Residential
        || c[p] == DistrictKind::Market || c[p] == DistrictKind::Craft || c[p]
        == DistrictKind::Noble || c[p] == DistrictKind::Temple by {
        let va = a[p];
        let vb = b[p];
        let vbt = convert_first(b, DistrictKind::Temple, min)[p];
        let vat = convert_first(a, DistrictKind::Temple, min)[p];
        assert(s0[p] == DistrictKind::Residential);
    }
}

proof fn lemma_housing_all_residential(n: nat)
    ensures
        housing(Seq::new(n, |j: int| DistrictKind::Residential)) == n,
    decreases n,
{
    if n > 0 {
        lemma_housing_all_residential((n - 1) as nat);
        assert(Seq::new(n, |j: int| DistrictKind::Residential).drop_last() =~= Seq::new(
            (n - 1) as nat,
            |j: int| DistrictKind::Residential,
        ));
    }
}

/// A city of at least five wedges (a town of at least four) gets a market
/// quarter and a craft quarter, and every settlement keeps at least its
/// minimum of housing wedges when it has that many wedges.
pub proof fn law_inner_ring_civic_quarters(
    kind: SettlementKind,
    n: nat,
    seed: u64,
    index: u64,
    forest_slot: Option<nat>,
)
    requires
        forest_slot matches Some(i) ==> i < n,
        n >= min_housing_for(kind),
        n >= 1,
    ensures
        housing(inner_ring(kind, n, seed, index, forest_slot)) >= min_housing_for(kind),
        (kind == SettlementKind::City && n >= 5) || (kind == SettlementKind::Town && n >= 4) ==> {
            &&& holds(inner_ring(kind, n, seed, index, forest_slot), DistrictKind::Market)
            &&& holds(inner_ring(kind, n, seed, index, forest_slot), DistrictKind::Craft)
        },
{
    let min = min_housing_for(kind);
    let s0 = Seq::new(n, |j: int| DistrictKind::Residential);
    let roll = spec_noise_bits(seed, CHANNEL_LAYOUT, index.wrapping_add(8));
    lemma_civic_ring_quarters(kind, n, roll);
    let t = civic_ring(kind, s0, roll, min);
    if let Some(i) = forest_slot {
        law_conversion_keeps_housing(t, i as int, DistrictKind::Forest, min);
        lemma_converted_frame(t, i as int, DistrictKind::Forest, min);
        if (kind == SettlementKind::City && n >= 5) || (kind == SettlementKind::Town && n >= 4) {
            let fin = converted(t, i as int, DistrictKind::Forest, min);
            assert(fin[0] == DistrictKind::Market && fin[1] == DistrictKind::Craft);
        }
    }
}

proof fn lemma_convert_first_keeps_housing(s: Seq<DistrictKind>, next: DistrictKind, min: nat)
    requires
        housing(s) >= min,
    ensures
        housing(convert_first(s, next, min)) >= min,
{
    lemma_first_from(s, DistrictKind::Residential, 0);
    if let Some(r) = first_of(s, DistrictKind::Residential) {
        law_conversion_keeps_housing(s, r as int, next, min);
    }
}

#[verifier::rlimit(30)]
proof fn lemma_civic_ring_quarters(kind: SettlementKind, n: nat, roll: u64)
    requires
        n >= min_housing_for(kind),
        n >= 1,
    ensures
        housing(civic_ring(kind, Seq::new(n, |j: int| DistrictKind::Residential), roll, min_housing_for(kind)))
            >= min_housing_for(kind),
        civic_ring(kind, Seq::new(n, |j: int| DistrictKind::Residential), roll, min_housing_for(kind)).len() == n,
        (kind == SettlementKind::City && n >= 5) || (kind == SettlementKind::Town && n >= 4) ==> {
            &&& civic_ring(kind, Seq::new(n, |j: int| DistrictKind::Residential), roll, min_housing_for(kind))[0]
                == DistrictKind::Market
            &&& civic_ring(kind, Seq::new(n, |j: int| DistrictKind::Residential), roll, min_housing_for(kind))[1]
                == DistrictKind::Craft
        },
{
    let min = min_housing_for(kind);
    let s0 = Seq::new(n, |j: int| DistrictKind::Residential);
    lemma_housing_all_residential(n);
    lemma_first_from(s0, DistrictKind::Residential, 0);
    let s1 = convert_first(s0, DistrictKind::Market, min);
    lemma_convert_first_keeps_housing(s0, DistrictKind::Market, min);
    lemma_first_from(s1, DistrictKind::Market, 0);
    lemma_market_craft_frame(s0, min);
    let a = with_market_and_craft(s0, min);
    assert(housing(a) >= min) by {
        if let Some(mi) = first_of(s1, DistrictKind::Market) {
            let nn = s1.len() as int;
            law_conversion_keeps_housing(s1, (mi as int + 1) % nn, DistrictKind::Craft, min);
            law_conversion_keeps_housing(s1, (mi as int + nn - 1) % nn, DistrictKind::Craft, min);
            lemma_convert_first_keeps_housing(s1, DistrictKind::Craft, min);
        }
    }
    lemma_convert_first_keeps_housing(a, DistrictKind::Noble, min);
    lemma_convert_first_keeps_housing(a, DistrictKind::Temple, min);
    lemma_convert_first_frame(a, DistrictKind::Noble, min);
    let b = convert_first(a, DistrictKind::Noble, min);
    lemma_convert_first_keeps_housing(b, DistrictKind::Temple, min);
    lemma_convert_first_frame(b, DistrictKind::Temple, min);
    lemma_convert_first_frame(a, DistrictKind::Temple, min);
    if (kind == SettlementKind::City && n >= 5) || (kind == SettlementKind::Town && n >= 4) {
        assert(s1 == s0.update(0, DistrictKind::Market));
        assert(first_of(s1, DistrictKind::Market) == Some(0nat));
        lemma_housing_update(s0, 0, DistrictKind::Market);
        assert(housing(s1) == n - 1);
        vstd::arithmetic::div_mod::lemma_small_mod(1, n);
        assert(s1[1] == DistrictKind::Residential);
        assert(conversion_allowed(s1, 1, DistrictKind::Craft, min));
        assert(a == s1.update(1, DistrictKind::Craft));
        assert(a[0] == DistrictKind::Market && a[1] == DistrictKind::Craft);
    }
}

/// The first residential slot of `s` is `p` when `p` is residential and
/// no slot before it is.
proof fn lemma_first_residential_at(s: Seq<DistrictKind>, p: nat)
    requires
        p < s.len(),
        s[p as int] == DistrictKind::Residential,
        forall|j: int| 0 <= j < p ==> s[j] != DistrictKind::Residential,
    ensures
        first_of(s, DistrictKind::Residential) == Some(p),
{
    lemma_first_from(s, DistrictKind::Residential, 0);
}

/// On an all-residential ring with room for two conversions above the
/// minimum, the market goes on slot 0 and the craft quarter on slot 1.
proof fn lemma_market_craft_start(n: nat, min: nat)
    requires
        n >= min + 2,
    ensures
        with_market_and_craft(Seq::new(n, |j: int| DistrictKind::Residential), min) == Seq::new(
            n,
            |j: int| DistrictKind::Residential,
        ).update(0, DistrictKind::Market).update(1, DistrictKind::Craft),
        housing(with_market_and_craft(Seq::new(n, |j: int| DistrictKind::Residential), min)) == n - 2,
{
    let s0 = Seq::new(n, |j: int| DistrictKind::Residential);
    lemma_housing_all_residential(n);
    lemma_first_residential_at(s0, 0);
    assert(conversion_allowed(s0, 0, DistrictKind::Market, min));
    let s1 = convert_first(s0, DistrictKind::Market, min);
    assert(s1 == s0.update(0, DistrictKind::Market));
    lemma_housing_update(s0, 0, DistrictKind::Market);
    lemma_first_from(s1, DistrictKind::Market, 0);
    assert(s1[0] == DistrictKind::Market);
    assert(first_of(s1, DistrictKind::Market) == Some(0nat));
    vstd::arithmetic::div_mod::lemma_small_mod(1, n);
    assert(s1[1] == DistrictKind::Residential);
    assert(conversion_allowed(s1, 1, DistrictKind::Craft, min));
    lemma_housing_update(s1, 1, DistrictKind::Craft);
}

/// With no temple step, the civic quarters and the woodland wedge are the
/// only kinds the inner ring takes besides housing: never a temple.
proof fn lemma_inner_ring_without_temple(
    kind: SettlementKind,
    n: nat,
    seed: u64,
    index: u64,
    forest_slot: Option<nat>,
)
    requires
        forest_slot matches Some(i) ==> i < n,
        n >= 1,
        ({
            let roll = spec_noise_bits(seed, CHANNEL_LAYOUT, index.wrapping_add(8));
            ||| kind == SettlementKind::Village
            ||| kind == SettlementKind::Hamlet
            ||| (kind == SettlementKind::Town && roll >= NOISE_BELOW_0_40)
            ||| (kind == SettlementKind::City && roll >= NOISE_BELOW_0_62)
        }),
    ensures
        !holds(inner_ring(kind, n, seed, index, forest_slot), DistrictKind::Temple),
{
    let min = min_housing_for(kind);
    let s0 = Seq::new(n, |j: int| DistrictKind::Residential);
    let roll = spec_noise_bits(seed, CHANNEL_LAYOUT, index.wrapping_add(8));
    lemma_market_craft_frame(s0, min);
    let a = with_market_and_craft(s0, min);
    lemma_convert_first_frame(a, DistrictKind::Noble, min);
    let t = civic_ring(kind, s0, roll, min);
    assert(t.len() == n);
    assert forall|p: int| 0 <= p < n implies t[p] != DistrictKind::Temple by {
        if kind == SettlementKind::City {
            assert(a[p] == s0[p] || a[p] == DistrictKind::Market || a[p] == DistrictKind::Craft);
        } else if kind == SettlementKind::Town {
            assert(a[p] == s0[p] || a[p] == DistrictKind::Market || a[p] == DistrictKind::Craft);
        }
    }
    let fin = inner_ring(kind, n, seed, index, forest_slot);
    if let Some(i) = forest_slot {
        lemma_converted_frame(t, i as int, DistrictKind::Forest, min);
    }
    assert forall|p: int| 0 <= p < fin.len() implies fin[p] != DistrictKind::Temple by {
        assert(t[p] != DistrictKind::Temple);
    }
}

/// The temple quarter of the inner ring follows the temple roll: a town of
/// at least five wedges gets one when its roll is below 0.40, a city of at
/// least six when its roll is below 0.62; a town or city on a higher roll,
/// and a village or hamlet, never has one.  Woodland near the settlement
/// does not take the temple's place.
pub proof fn law_inner_ring_temple(
    kind: SettlementKind,
    n: nat,
    seed: u64,
    index: u64,
    forest_slot: Option<nat>,
)
    requires
        forest_slot matches Some(i) ==> i < n,
        n >= 1,
    ensures
        ({
            let roll = spec_noise_bits(seed, CHANNEL_LAYOUT, index.wrapping_add(8));
            &&& kind == SettlementKind::Town && n >= 5 && roll < NOISE_BELOW_0_40 ==> holds(
                inner_ring(kind, n, seed, index, forest_slot),
                DistrictKind::Temple,
            )
            &&& kind == SettlementKind::City && n >= 6 && roll < NOISE_BELOW_0_62 ==> holds(
                inner_ring(kind, n, seed, index, forest_slot),
                DistrictKind::Temple,
            )
            &&& (kind == SettlementKind::Town && roll >= NOISE_BELOW_0_40) || (kind
                == SettlementKind::City && roll >= NOISE_BELOW_0_62) || kind
                == SettlementKind::Village || kind == SettlementKind::Hamlet ==> !holds(
                inner_ring(kind, n, seed, index, forest_slot),
                DistrictKind::Temple,
            )
        }),
{
    let min = min_housing_for(kind);
    let s0 = Seq::new(n, |j: int| DistrictKind::Residential);
    let roll = spec_noise_bits(seed, CHANNEL_LAYOUT, index.wrapping_add(8));
    let fin = inner_ring(kind, n, seed, index, forest_slot);
    if (kind == SettlementKind::Town && roll >= NOISE_BELOW_0_40) || (kind == SettlementKind::City
        && roll >= NOISE_BELOW_0_62) || kind == SettlementKind::Village || kind
        == SettlementKind::Hamlet {
        lemma_inner_ring_without_temple(kind, n, seed, index, forest_slot);
    } else if kind == SettlementKind::Town && n >= 5 {
        lemma_market_craft_start(n, min);
        let a = with_market_and_craft(s0, min);
        lemma_first_residential_at(a, 2);
        assert(conversion_allowed(a, 2, DistrictKind::Temple, min));
        let t = convert_first(a, DistrictKind::Temple, min);
        assert(t == a.update(2, DistrictKind::Temple));
        assert(t == civic_ring(kind, s0, roll, min));
        if let Some(i) = forest_slot {
            lemma_converted_frame(t, i as int, DistrictKind::Forest, min);
        }
        assert(fin[2] == DistrictKind::Temple);
    } else if kind == SettlementKind::City && n >= 6 {
        lemma_market_craft_start(n, min);
        let a = with_market_and_craft(s0, min);
        lemma_first_residential_at(a, 2);
        assert(conversion_allowed(a, 2, DistrictKind::Noble, min));
        let b = convert_first(a, DistrictKind::Noble, min);
        assert(b == a.update(2, DistrictKind::Noble));
        lemma_housing_update(a, 2, DistrictKind::Noble);
        lemma_first_residential_at(b, 3);
        assert(conversion_allowed(b, 3, DistrictKind::Temple, min));
        let t = convert_first(b, DistrictKind::Temple, min);
        assert(t == b.update(3, DistrictKind::Temple));
        assert(t == civic_ring(kind, s0, roll, min));
        if let Some(i) = forest_slot {
            lemma_converted_frame(t, i as int, DistrictKind::Forest, min);
        }
        assert(fin[3] == DistrictKind::Temple);
    }
}

proof fn lemma_first_outskirts_in(s: Seq<DistrictKind>, order: Seq<usize>, from: nat)
    requires
        forall|j: int| 0 <= j < order.len() ==> (#[trigger] order[j]) < s.len(),
    ensures
        first_outskirts_in(s, order, from) matches Some(i) ==> i < s.len() && s[i as int]
            == DistrictKind::Outskirts,
        first_outskirts_in(s, order, from) is None ==> forall|j: int|
            from <= j < order.len() ==> s[#[trigger] order[j] as int] != DistrictKind::Outskirts,
    decreases order.len() - from,
{
    if from < order.len() && s[order[from as int] as int] != DistrictKind::Outskirts {
        lemma_first_outskirts_in(s, order, from + 1);
    }
}

proof fn lemma_placed_frame(s: Seq<DistrictKind>, order: Seq<usize>, kind: DistrictKind, count: nat)
    requires
        forall|j: int| 0 <= j < order.len() ==> (#[trigger] order[j]) < s.len(),
    ensures
        placed_nearest(s, order, kind, count).len() == s.len(),
        forall|p: int|
            0 <= p < s.len() ==> #[trigger] placed_nearest(s, order, kind, count)[p] == s[p] || (
            s[p] == DistrictKind::Outskirts && placed_nearest(s, order, kind, count)[p] == kind),
    decreases count,
{
    if count > 0 {
        lemma_first_outskirts_in(s, order, 0);
        if let Some(i) = first_outskirts_in(s, order, 0) {
            let t = s.update(i as int, kind);
            lemma_placed_frame(t, order, kind, (count - 1) as nat);
            assert forall|p: int| 0 <= p < s.len() implies #[trigger] placed_nearest(
                s,
                order,
                kind,
                count,
            )[p] == s[p] || (s[p] == DistrictKind::Outskirts && placed_nearest(
                s,
                order,
                kind,
                count,
            )[p] == kind) by {
                let v = placed_nearest(t, order, kind, (count - 1) as nat)[p];
            }
        }
    }
}

proof fn lemma_promote_frame(s: Seq<DistrictKind>, count: nat)
    ensures
        promote_suburbs(s, count).len() == s.len(),
        forall|p: int|
            0 <= p < s.len() ==> #[trigger] promote_suburbs(s, count)[p] == s[p] || (s[p]
                == DistrictKind::Outskirts && promote_suburbs(s, count)[p]
                == DistrictKind::Residential),
    decreases count,
{
    if count > 0 {
        lemma_first_from(s, DistrictKind::Outskirts, 0);
        if let Some(i) = first_of(s, DistrictKind::Outskirts) {
            let t = s.update(i as int, DistrictKind::Residential);
            lemma_promote_frame(t, (count - 1) as nat);
            assert forall|p: int| 0 <= p < s.len() implies #[trigger] promote_suburbs(s, count)[p]
                == s[p] || (s[p] == DistrictKind::Outskirts && promote_suburbs(s, count)[p]
                == DistrictKind::Residential) by {
                let v = promote_suburbs(t, (count - 1) as nat)[p];
            }
        }
    }
}

/// Every wedge of the outer ring is outskirts, residential, a port or
/// woodland; a port only appears toward water and woodland only toward
/// forest.
pub proof fn law_outer_ring_roles(
    kind: SettlementKind,
    n: nat,
    water_order: Option<Seq<usize>>,
    forest_order: Option<Seq<usize>>,
)
    requires
        water_order matches Some(o) ==> forall|j: int| 0 <= j < o.len() ==> (#[trigger] o[j]) < n,
        forest_order matches Some(o) ==> forall|j: int| 0 <= j < o.len() ==> (#[trigger] o[j]) < n,
    ensures
        outer_ring(kind, n, water_order, forest_order).len() == n,
        forall|p: int|
            0 <= p < n ==> {
                let v = #[trigger] outer_ring(kind, n, water_order, forest_order)[p];
                v == DistrictKind::Outskirts || v == DistrictKind::Residential || v
                    == DistrictKind::Port || v == DistrictKind::Forest
            },
        water_order is None ==> lacks(
            outer_ring(kind, n, water_order, forest_order),
            DistrictKind::Port,
        ),
        forest_order is None ==> lacks(
            outer_ring(kind, n, water_order, forest_order),
            DistrictKind::Forest,
        ),
{
    lemma_outer_stages(kind, n, water_order, forest_order);
    let (s1, s2) = outer_stages(kind, n, water_order, forest_order);
    let fin = outer_ring(kind, n, water_order, forest_order);
    assert forall|j: int| 0 <= j < n implies s2[j] != DistrictKind::Residential by {
        assert(s1[j] == DistrictKind::Outskirts || s1[j] == DistrictKind::Port);
        assert(s2[j] == s1[j] || s2[j] == DistrictKind::Forest);
    }
    outer_final_frame(kind, n, s2, 0);
    assert forall|p: int| 0 <= p < n implies {
        let v = #[trigger] fin[p];
        &&& (v == DistrictKind::Outskirts || v == DistrictKind::Residential || v
            == DistrictKind::Port || v == DistrictKind::Forest)
        &&& (v == DistrictKind::Port ==> water_order is Some)
        &&& (v == DistrictKind::Forest ==> forest_order is Some)
    } by {
        assert(s1[p] == DistrictKind::Outskirts || s1[p] == DistrictKind::Port);
        assert(s2[p] == s1[p] || s2[p] == DistrictKind::Forest);
        assert(s2[p] == DistrictKind::Port ==> water_order is Some);
        assert(s2[p] == DistrictKind::Forest ==> forest_order is Some);
        outer_final_frame(kind, n, s2, p);
    }
}

/// The two placement stages of the outer ring: after the port, and after
/// the woodland.
pub open spec fn outer_stages(
    kind: SettlementKind,
    n: nat,
    water_order: Option<Seq<usize>>,
    forest_order: Option<Seq<usize>>,
) -> (Seq<DistrictKind>, Seq<DistrictKind>) {
    let s0 = Seq::new(n, |j: int| DistrictKind::Outskirts);
    let s1 = match water_order {
        Some(o) => placed_nearest(s0, o, DistrictKind::Port, 1),
        None => s0,
    };
    let forest_n: nat = if kind == SettlementKind::City {
        if n < 2 {
            n
        } else {
            2
        }
    } else {
        if n < 1 {
            n
        } else {
            1
        }
    };
    let s2 = match forest_order {
        Some(o) => placed_nearest(s1, o, DistrictKind::Forest, forest_n),
        None => s1,
    };
    (s1, s2)
}

proof fn lemma_outer_stages(
    kind: SettlementKind,
    n: nat,
    water_order: Option<Seq<usize>>,
    forest_order: Option<Seq<usize>>,
)
    requires
        water_order matches Some(o) ==> forall|j: int| 0 <= j < o.len() ==> (#[trigger] o[j]) < n,
        forest_order matches Some(o) ==> forall|j: int| 0 <= j < o.len() ==> (#[trigger] o[j]) < n,
    ensures
        ({
            let (s1, s2) = outer_stages(kind, n, water_order, forest_order);
            &&& s1.len() == n
            &&& s2.len() == n
            &&& forall|p: int|
                0 <= p < n ==> (#[trigger] s1[p] == DistrictKind::Outskirts || (s1[p]
                    == DistrictKind::Port && water_order is Some))
            &&& forall|p: int|
                0 <= p < n ==> (#[trigger] s2[p] == s1[p] || (s1[p] == DistrictKind::Outskirts
                    && s2[p] == DistrictKind::Forest && forest_order is Some))
        }),
        outer_ring(kind, n, water_order, forest_order) == outer_finish(
            kind,
            n,
            outer_stages(kind, n, water_order, forest_order).1,
        ),
{
    let s0 = Seq::new(n, |j: int| DistrictKind::Outskirts);
    if let Some(o) = water_order {
        lemma_placed_frame(s0, o, DistrictKind::Port, 1);
    }
    let (s1, s2) = outer_stages(kind, n, water_order, forest_order);
    if let Some(o) = forest_order {
        let forest_n: nat = if kind == SettlementKind::City {
            if n < 2 {
                n
            } else {
                2
            }
        } else {
            if n < 1 {
                n
            } else {
                1
            }
        };
        lemma_placed_frame(s1, o, DistrictKind::Forest, forest_n);
    }
}

/// The last stage of the outer ring, from the ring `s2` with port and woodland placed.
pub open spec fn outer_finish(kind: SettlementKind, n: nat, s2: Seq<DistrictKind>) -> Seq<
    DistrictKind,
> {
    if kind == SettlementKind::Village || kind == SettlementKind::Hamlet {
        let s3 = Seq::new(
            n,
            |j: int|
                if s2[j] == DistrictKind::Outskirts {
                    DistrictKind::Residential
                } else {
                    s2[j]
                },
        );
        if n >= 2 {
            match last_before(s3, DistrictKind::Residential, n) {
                Some(i) => s3.update(i as int, DistrictKind::Outskirts),
                None => s3,
            }
        } else {
            s3
        }
    } else {
        let leftover = outskirts_count(s2);
        let wanted: nat = if kind == SettlementKind::City {
            2
        } else {
            1
        };
        let spare: nat = if leftover == 0 {
            0
        } else {
            (leftover - 1) as nat
        };
        promote_suburbs(
            s2,
            if wanted < spare {
                wanted
            } else {
                spare
            },
        )
    }
}

proof fn outer_final_frame(kind: SettlementKind, n: nat, s2: Seq<DistrictKind>, p: int)
    requires
        s2.len() == n,
        forall|j: int| 0 <= j < n ==> s2[j] != DistrictKind::Residential,
    ensures
        outer_finish(kind, n, s2).len() == n,
        0 <= p < n && s2[p] != DistrictKind::Outskirts ==> outer_finish(kind, n, s2)[p] == s2[p],
        0 <= p < n && s2[p] == DistrictKind::Outskirts ==> outer_finish(kind, n, s2)[p]
            == DistrictKind::Outskirts || outer_finish(kind, n, s2)[p] == DistrictKind::Residential,
{
    if kind == SettlementKind::Village || kind == SettlementKind::Hamlet {
        let s3 = Seq::new(
            n,
            |j: int|
                if s2[j] == DistrictKind::Outskirts {
                    DistrictKind::Residential
                } else {
                    s2[j]
                },
        );
        lemma_last_before(s3, DistrictKind::Residential, n);
    } else {
        let leftover = outskirts_count(s2);
        let wanted: nat = if kind == SettlementKind::City {
            2
        } else {
            1
        };
        let spare: nat = if leftover == 0 {
            0
        } else {
            (leftover - 1) as nat
        };
        let c = if wanted < spare {
            wanted
        } else {
            spare
        };
        lemma_promote_frame(s2, c);
        if 0 <= p < n {
            let v = promote_suburbs(s2, c)[p];
        }
    }
}

/// Water nearby always yields a port wedge; woodland nearby yields a
/// woodland wedge on the outer ring whenever the woodland order ranks every
/// wedge and a wedge is left after the port.
pub proof fn law_outer_ring_port_and_forest(
    kind: SettlementKind,
    n: nat,
    water_order: Option<Seq<usize>>,
    forest_order: Option<Seq<usize>>,
)
    requires
        water_order matches Some(o) ==> forall|j: int| 0 <= j < o.len() ==> (#[trigger] o[j]) < n,
        forest_order matches Some(o) ==> forall|j: int| 0 <= j < o.len() ==> (#[trigger] o[j]) < n,
    ensures
        (water_order matches Some(o) && o.len() > 0) ==> holds(
            outer_ring(kind, n, water_order, forest_order),
            DistrictKind::Port,
        ),
        (forest_order matches Some(o) && (forall|q: usize| q < n ==> #[trigger] o.contains(q))
            && n >= 1 && (water_order is None || n >= 2)) ==> holds(
            outer_ring(kind, n, water_order, forest_order),
            DistrictKind::Forest,
        ),
{
    lemma_outer_stages(kind, n, water_order, forest_order);
    let (s1, s2) = outer_stages(kind, n, water_order, forest_order);
    let s0 = Seq::new(n, |j: int| DistrictKind::Outskirts);
    assert forall|j: int| 0 <= j < n implies s2[j] != DistrictKind::Residential by {
        assert(s1[j] == DistrictKind::Outskirts || s1[j] == DistrictKind::Port);
        assert(s2[j] == s1[j] || s2[j] == DistrictKind::Forest);
    }
    let fin = outer_ring(kind, n, water_order, forest_order);
    if let Some(o) = water_order {
        if o.len() > 0 {
            let p = o[0] as int;
            assert(first_outskirts_in(s0, o, 0) == Some(o[0] as nat));
            assert(placed_nearest(s0.update(p, DistrictKind::Port), o, DistrictKind::Port, 0)
                == s0.update(p, DistrictKind::Port));
            assert(s1 == s0.update(p, DistrictKind::Port));
            assert(s1[p] == DistrictKind::Port);
            assert(s2[p] == DistrictKind::Port);
            outer_final_frame(kind, n, s2, p);
            assert(fin[p] == DistrictKind::Port);
        }
    }
    if let Some(o) = forest_order {
        if (forall|q: usize| q < n ==> #[trigger] o.contains(q)) && n >= 1 && (water_order is None
            || n >= 2) {
            // some wedge is still outskirts after the port
            let q: usize = if water_order is None {
                0
            } else {
                match water_order {
                    Some(w) => if w.len() > 0 && w[0] == 0 {
                        1
                    } else {
                        0
                    },
                    None => 0,
                }
            };
            assert(s1[q as int] == DistrictKind::Outskirts) by {
                if let Some(w) = water_order {
                    if w.len() > 0 {
                        assert(first_outskirts_in(s0, w, 0) == Some(w[0] as nat));
                        assert(placed_nearest(
                            s0.update(w[0] as int, DistrictKind::Port),
                            w,
                            DistrictKind::Port,
                            0,
                        ) == s0.update(w[0] as int, DistrictKind::Port));
                    } else {
                        assert(first_outskirts_in(s0, w, 0) is None);
                    }
                }
            }
            let forest_n: nat = if kind == SettlementKind::City {
                if n < 2 {
                    n
                } else {
                    2
                }
            } else {
                if n < 1 {
                    n
                } else {
                    1
                }
            };
            lemma_first_outskirts_in(s1, o, 0);
            assert(o.contains(q));
            let jq = choose|j: int| 0 <= j < o.len() && o[j] == q;
            assert(s1[o[jq] as int] == DistrictKind::Outskirts);
            let i = first_outskirts_in(s1, o, 0)->0;
            let t = s1.update(i as int, DistrictKind::Forest);
            lemma_placed_frame(t, o, DistrictKind::Forest, (forest_n - 1) as nat);
            assert(s2 == placed_nearest(t, o, DistrictKind::Forest, (forest_n - 1) as nat));
            assert(s2[i as int] == DistrictKind::Forest);
            outer_final_frame(kind, n, s2, i as int);
            assert(fin[i as int] == DistrictKind::Forest);
        }
    }
}

/// Rank of a road class: highway over secondary over local.
pub open spec fn road_rank(kind: RoadKind) -> u8 {
    match kind {
        RoadKind::Highway => 2,
        RoadKind::Secondary => 1,
        RoadKind::Local => 0,
    }
}

pub fn kind_rank(kind: RoadKind) -> (r: u8)
    ensures
        r == road_rank(kind),
{
    match kind {
        RoadKind::Highway => 2,
        RoadKind::Secondary => 1,
        RoadKind::Local => 0,
    }
}

/// Whether `links` already joins `a` and `b` (in either direction).
pub open spec fn linked(links: Seq<(RoadKind, usize, usize)>, a: usize, b: usize) -> bool {
    exists|k: int|
        0 <= k < links.len() && ((#[trigger] links[k]).1 == a && links[k].2 == b || links[k].1 == b
            && links[k].2 == a)
}

pub fn has_pair(links: &[(RoadKind, usize, usize)], a: usize, b: usize) -> (r: bool)
    ensures
        r == linked(links@, a, b),
{
    let mut k: usize = 0;
    while k < links.len()
        invariant
            k <= links@.len(),
            forall|t: int|
                0 <= t < k ==> !((#[trigger] links@[t]).1 == a && links@[t].2 == b || links@[t].1
                    == b && links@[t].2 == a),
        decreases links.len() - k,
    {
        let (_, x, y) = links[k];
        if (x == a && y == b) || (x == b && y == a) {
            return true;
        }
        k = k + 1;
    }
    false
}

/// Surface of a road: highways are paved (packed on a roll below 0.12),
/// secondary roads are packed (dirt on a roll below 0.18, or below 0.42 when
/// the smaller end has fewer than 2500 inhabitants), local roads are dirt
/// (packed on a roll below 0.12).
pub open spec fn surface_for(kind: RoadKind, roll: u64, pop_a: u32, pop_b: u32) -> RoadSurface {
    let small = pop_a < 2500 || pop_b < 2500;
    match kind {
        RoadKind::Highway => if roll < NOISE_BELOW_0_12 {
            RoadSurface::Packed
        } else {
            RoadSurface::Paved
        },
        RoadKind::Secondary => if roll < NOISE_BELOW_0_18 || (small && roll < NOISE_BELOW_0_42) {
            RoadSurface::Dirt
        } else {
            RoadSurface::Packed
        },
        RoadKind::Local => if roll < NOISE_BELOW_0_12 {
            RoadSurface::Packed
        } else {
            RoadSurface::Dirt
        },
    }
}

/// The surface of a road does not depend on which end is named first, and
/// a secondary road with an end below 2500 inhabitants is dirt on a roll
/// below 0.42 (on a roll below 0.18 whatever the ends), packed otherwise.
pub proof fn law_surface_symmetric_in_ends(seed: u64, index: u64, kind: RoadKind, pop_a: u32, pop_b: u32)
    requires
        index + 11000 <= u64::MAX,
    ensures
        ({
            let roll = spec_noise_bits(seed, CHANNEL_ROAD, (11000 + index) as u64);
            &&& surface_for(kind, roll, pop_a, pop_b) == surface_for(kind, roll, pop_b, pop_a)
            &&& kind == RoadKind::Secondary ==> (surface_for(kind, roll, pop_a, pop_b)
                == RoadSurface::Dirt <==> (roll < NOISE_BELOW_0_18 || ((pop_a < 2500 || pop_b < 2500)
                && roll < NOISE_BELOW_0_42)))
        }),
{
}

/// Surface of road number `index` of class `kind` between settlements of the
/// given populations.
pub fn pick_surface(seed: u64, index: u64, kind: RoadKind, pop_a: u32, pop_b: u32) -> (s: RoadSurface)
    requires
        index + 11000 <= u64::MAX,
    ensures
        s == surface_for(kind, spec_noise_bits(seed, CHANNEL_ROAD, (11000 + index) as u64), pop_a, pop_b),
{
    let n = noise_bits(seed, CHANNEL_ROAD, 11000 + index);
    let small = (if pop_a < pop_b {
        pop_a
    } else {
        pop_b
    }) < 2500;
    match kind {
        RoadKind::Highway => {
            if n < NOISE_BELOW_0_12 {
                RoadSurface::Packed
            } else {
                RoadSurface::Paved
            }
        },
        RoadKind::Secondary => {
            if n < NOISE_BELOW_0_18 || (small && n < NOISE_BELOW_0_42) {
                RoadSurface::Dirt
            } else {
                RoadSurface::Packed
            }
        },
        RoadKind::Local => {
            if n < NOISE_BELOW_0_12 {
                RoadSurface::Packed
            } else {
                RoadSurface::Dirt
            }
        },
    }
}

/// Noise key of the road-grid cell `(gx, gy)` for roads of class `kind`.
pub open spec fn bridge_key(kind: RoadKind, gx: i64, gy: i64) -> u64 {
    (gx.wrapping_mul(73856093i64) ^ gy.wrapping_mul(19349663i64) ^ (road_rank(kind) as i64)) as u64
}

/// Whether a road of class `kind` may bridge the river in road-grid cell
/// `(gx, gy)`: highways always, secondary roads on a roll below 0.72, local
/// roads below 0.30.
pub open spec fn bridge_allowed(kind: RoadKind, seed: u64, gx: i64, gy: i64) -> bool {
    let roll = spec_noise_bits(seed, CHANNEL_BRIDGE, bridge_key(kind, gx, gy));
    match kind {
        RoadKind::Highway => true,
        RoadKind::Secondary => roll < NOISE_BELOW_0_72,
        RoadKind::Local => roll < NOISE_BELOW_0_30,
    }
}

/// River-bridge rule for the road-grid cell `(gx, gy)` (the world position
/// divided by the road cell size, floored).
pub fn river_bridge_allowed(kind: RoadKind, seed: u64, gx: i64, gy: i64) -> (r: bool)
    ensures
        r == bridge_allowed(kind, seed, gx, gy),
{
    let key = (gx.wrapping_mul(73856093i64) ^ gy.wrapping_mul(19349663i64) ^ (kind_rank(kind) as i64)) as u64;
    let roll = noise_bits(seed, CHANNEL_BRIDGE, key);
    match kind {
        RoadKind::Highway => true,
        RoadKind::Secondary => roll < NOISE_BELOW_0_72,
        RoadKind::Local => roll < NOISE_BELOW_0_30,
    }
}

/// Direction word of compass octant `octant` (0 = east, counting through south),
/// feminine for residential, noble and temple quarters.
pub open spec fn cardinal_word(kind: DistrictKind, octant: int) -> Seq<char> {
    if kind == DistrictKind::Residential || kind == DistrictKind::Noble || kind
        == DistrictKind::Temple {
        if octant == 0 {
            "wschodnia"@
        } else if octant == 1 {
            "południowo-wschodnia"@
        } else if octant == 2 {
            "południowa"@
        } else if octant == 3 {
            "południowo-zachodnia"@
        } else if octant == 4 {
            "zachodnia"@
        } else if octant == 5 {
            "północno-zachodnia"@
        } else if octant == 6 {
            "północna"@
        } else {
            "północno-wschodnia"@
        }
    } else {
        if octant == 0 {
            "wschodnie"@
        } else if octant == 1 {
            "południowo-wschodnie"@
        } else if octant == 2 {
            "południowe"@
        } else if octant == 3 {
            "południowo-zachodnie"@
        } else if octant == 4 {
            "zachodnie"@
        } else if octant == 5 {
            "północno-zachodnie"@
        } else if octant == 6 {
            "północne"@
        } else {
            "północno-wschodnie"@
        }
    }
}

pub fn cardinal_label(kind: DistrictKind, octant: usize) -> (s: &'static str)
    requires
        octant < 8,
    ensures
        s@ == cardinal_word(kind, octant as int),
{
    let fem = kind == DistrictKind::Residential || kind == DistrictKind::Noble || kind
        == DistrictKind::Temple;
    if fem {
        let a = ["wschodnia", "południowo-wschodnia", "południowa", "południowo-zachodnia", "zachodnia", "północno-zachodnia", "północna", "północno-wschodnia"];
        a[octant]
    } else {
        let a = ["wschodnie", "południowo-wschodnie", "południowe", "południowo-zachodnie", "zachodnie", "północno-zachodnie", "północne", "północno-wschodnie"];
        a[octant]
    }
}

/// Number of stock names of a district kind (residential and outskirts
/// quarters are named after their direction instead).
pub open spec fn district_option_count(kind: DistrictKind) -> nat {
    match kind {
        DistrictKind::Forest => 5,
        DistrictKind::Residential | DistrictKind::Outskirts => 0,
        _ => 3,
    }
}

/// Stock name number `i` of a district kind.
pub open spec fn district_option(kind: DistrictKind, i: int) -> Seq<char> {
    match kind {
        DistrictKind::Center => {
            if i == 0 {
                "Rynek"@
            } else if i == 1 {
                "Stare Miasto"@
            } else {
                "Centrum"@
            }
        },
        DistrictKind::Market => {
            if i == 0 {
                "Targ"@
            } else if i == 1 {
                "Dzielnica handlowa"@
            } else {
                "Jatki"@
            }
        },
        DistrictKind::Craft => {
            if i == 0 {
                "Dzielnica rzemieślnicza"@
            } else if i == 1 {
                "Warsztaty"@
            } else {
                "Kuźnice"@
            }
        },
        DistrictKind::Port => {
            if i == 0 {
                "Port"@
            } else if i == 1 {
                "Nabrzeże"@
            } else {
                "Przystań"@
            }
        },
        DistrictKind::Forest => {
            if i == 0 {
                "Gaj"@
            } else if i == 1 {
                "Dzielnica leśna"@
            } else if i == 2 {
                "Park"@
            } else if i == 3 {
                "Bór"@
            } else {
                "Zagajnik"@
            }
        },
        DistrictKind::Temple => {
            if i == 0 {
                "Dzielnica świątynna"@
            } else if i == 1 {
                "Ostrów"@
            } else {
                "Plebania"@
            }
        },
        DistrictKind::Noble => {
            if i == 0 {
                "Dzielnica zamożna"@
            } else if i == 1 {
                "Górne Miasto"@
            } else {
                "Patrycjat"@
            }
        },
        _ => Seq::empty(),
    }
}

/// Name of a district: a stock name picked by noise, or for residential
/// and outskirts quarters a name with the compass word of its octant.
pub open spec fn district_title(seed: u64, index: u64, kind: DistrictKind, octant: int, salt: u64) -> Seq<
    char,
> {
    match kind {
        DistrictKind::Residential => "Dzielnica mieszkaniowa "@ + cardinal_word(kind, octant),
        DistrictKind::Outskirts => "Przedmieście "@ + cardinal_word(kind, octant),
        _ => district_option(
            kind,
            pick_index(district_option_count(kind), seed, (CHANNEL_LAYOUT + 2) as u64, index.wrapping_add(salt)),
        ),
    }
}

pub fn district_name(seed: u64, index: u64, kind: DistrictKind, octant: usize, salt: u64) -> (s: String)
    requires
        octant < 8,
    ensures
        s@ == district_title(seed, index, kind, octant as int, salt),
{
    let card = cardinal_label(kind, octant);
    let key = index.wrapping_add(salt);
    let ch = CHANNEL_LAYOUT + 2;
    match kind {
        DistrictKind::Center => {
            let a = ["Rynek", "Stare Miasto", "Centrum"];
            String::from_str(pick(&a, seed, ch, key))
        },
        DistrictKind::Market => {
            let a = ["Targ", "Dzielnica handlowa", "Jatki"];
            String::from_str(pick(&a, seed, ch, key))
        },
        DistrictKind::Craft => {
            let a = ["Dzielnica rzemieślnicza", "Warsztaty", "Kuźnice"];
            String::from_str(pick(&a, seed, ch, key))
        },
        DistrictKind::Port => {
            let a = ["Port", "Nabrzeże", "Przystań"];
            String::from_str(pick(&a, seed, ch, key))
        },
        DistrictKind::Forest => {
            let a = ["Gaj", "Dzielnica leśna", "Park", "Bór", "Zagajnik"];
            String::from_str(pick(&a, seed, ch, key))
        },
        DistrictKind::Temple => {
            let a = ["Dzielnica świątynna", "Ostrów", "Plebania"];
            String::from_str(pick(&a, seed, ch, key))
        },
        DistrictKind::Noble => {
            let a = ["Dzielnica zamożna", "Górne Miasto", "Patrycjat"];
            String::from_str(pick(&a, seed, ch, key))
        },
        DistrictKind::Residential => {
            let mut s = String::from_str("Dzielnica mieszkaniowa ");
            s.append(card);
            s
        },
        DistrictKind::Outskirts => {
            let mut s = String::from_str("Przedmieście ");
            s.append(card);
            s
        },
    }
}

/// Unique district name within one settlement: the plain name, else the
/// name with its compass word in brackets, else the name followed by `-`
/// and the salt.
pub open spec fn unique_district_title(
    seed: u64,
    index: u64,
    kind: DistrictKind,
    octant: int,
    salt: u64,
    taken: Set<Seq<char>>,
) -> Seq<char> {
    let base = district_title(seed, index, kind, octant, salt);
    let named = base + " ("@ + cardinal_word(kind, octant) + ")"@;
    if !taken.contains(base) {
        base
    } else if !taken.contains(named) {
        named
    } else {
        base + "-"@ + decimal(salt as nat)
    }
}

pub fn unique_district_name(
    seed: u64,
    index: u64,
    kind: DistrictKind,
    octant: usize,
    salt: u64,
    taken: &mut Vec<String>,
) -> (s: String)
    requires
        octant < 8,
    ensures
        s@ == unique_district_title(seed, index, kind, octant as int, salt, name_set(old(taken)@)),
        name_set(final(taken)@) == name_set(old(taken)@).insert(s@),
{
    let base = district_name(seed, index, kind, octant, salt);
    if insert_name(taken, &base) {
        return base;
    }
    let mut named = base.clone();
    named.append(" (");
    named.append(cardinal_label(kind, octant));
    named.append(")");
    if insert_name(taken, &named) {
        return named;
    }
    let mut fallback = base.clone();
    fallback.append("-");
    push_decimal(&mut fallback, salt);
    let _ = insert_name(taken, &fallback);
    fallback
}

} // verus!
