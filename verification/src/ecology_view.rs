//! Hover texts of the ecology layer: the species around a point and the
//! expected life of a region tile.
use vstd::prelude::*;
use vstd::string::StringExecFns;
use crate::ecology::{FaunaGroup, SpeciesSighting};
use crate::text::{decimal, push_decimal};

verus! {

/// Most species one hover line lists per life kind.
pub const SUMMARY_SPECIES_MAX: usize = 4usize;

/// `items` separated by `sep`.
pub open spec fn joined(items: Seq<Seq<char>>, sep: Seq<char>) -> Seq<char>
    decreases items.len(),
{
    if items.len() == 0 {
        Seq::empty()
    } else if items.len() == 1 {
        items[0]
    } else {
        joined(items.drop_last(), sep) + sep + items.last()
    }
}

/// The texts of `items`.
pub open spec fn texts(items: Seq<String>) -> Seq<Seq<char>> {
    items.map_values(|s: String| s@)
}

/// Appends the texts of `items` separated by `sep`.
pub fn push_joined(out: &mut String, items: &Vec<String>, sep: &str)
    ensures
        final(out)@ == old(out)@ + joined(texts(items@), sep@),
{
    let ghost start = out@;
    let mut i: usize = 0;
    while i < items.len()
        invariant
            i <= items@.len(),
            out@ == start + joined(texts(items@.take(i as int)), sep@),
        decreases items.len() - i,
    {
        proof {
            assert(texts(items@.take(i as int + 1)).drop_last() =~= texts(items@.take(i as int)));
            assert(texts(items@.take(i as int + 1)).last() == items@[i as int]@);
        }
        if i > 0 {
            out.append(sep);
        }
        out.append(items[i].as_str());
        proof {
            if i == 0 {
                assert(texts(items@.take(1)) =~= seq![items@[0]@]);
            }
            assert(out@ =~= start + joined(texts(items@.take(i as int + 1)), sep@));
        }
        i = i + 1;
    }
    proof {
        assert(items@.take(items@.len() as int) =~= items@);
    }
}

/// The dedup key of a sighting: species and subspecies joined by `|`.
pub open spec fn sighting_key(s: SpeciesSighting) -> Seq<char> {
    s.species@ + "|"@ + s.subspecies@
}

/// The label of a sighting: `species (subspecies)`.
pub open spec fn sighting_label(s: SpeciesSighting) -> Seq<char> {
    s.species@ + " ("@ + s.subspecies@ + ")"@
}

/// Keys seen and labels listed after the first `k` sightings: each new
/// species–subspecies pair adds its label, up to four labels.
pub open spec fn species_labels(items: Seq<SpeciesSighting>, k: nat) -> (Set<Seq<char>>, Seq<Seq<char>>)
    decreases k,
{
    if k == 0 || k > items.len() {
        (Set::empty(), Seq::empty())
    } else {
        let (seen, out) = species_labels(items, (k - 1) as nat);
        let key = sighting_key(items[k - 1]);
        if out.len() >= 4 || seen.contains(key) {
            (seen, out)
        } else {
            (seen.insert(key), out.push(sighting_label(items[k - 1])))
        }
    }
}

/// The labels of the distinct species among `items`, first seen first, at
/// most four.
pub fn uniq_species(items: &[SpeciesSighting]) -> (labels: Vec<String>)
    ensures
        texts(labels@) == species_labels(items@, items@.len()).1,
        labels@.len() <= SUMMARY_SPECIES_MAX,
{
    let mut seen: Vec<String> = Vec::new();
    let mut out: Vec<String> = Vec::new();
    let mut i: usize = 0;
    proof {
        reveal_strlit("|");
        reveal_strlit(" (");
        reveal_strlit(")");
    }
    while i < items.len()
        invariant
            i <= items@.len(),
            texts(out@) == species_labels(items@, i as nat).1,
            texts(seen@).to_set() == species_labels(items@, i as nat).0,
            out@.len() <= 4,
        decreases items.len() - i,
    {
        let ghost before_seen = seen@;
        let ghost before_out = out@;
        if out.len() < SUMMARY_SPECIES_MAX {
            let it = &items[i];
            let mut key = it.species.clone();
            key.append("|");
            key.append(it.subspecies.as_str());
            let mut found = false;
            let mut j: usize = 0;
            while j < seen.len()
                invariant
                    j <= seen@.len(),
                    found == (exists|q: int| 0 <= q < j && (#[trigger] seen@[q])@ == key@),
                decreases seen.len() - j,
            {
                if seen[j] == key {
                    found = true;
                }
                j = j + 1;
            }
            proof {
                assert(found == texts(seen@).to_set().contains(key@)) by {
                    if found {
                        let q = choose|q: int| 0 <= q < seen@.len() && (#[trigger] seen@[q])@ == key@;
                        assert(texts(seen@)[q] == key@);
                    }
                    if texts(seen@).to_set().contains(key@) {
                        let q = choose|q: int| 0 <= q < texts(seen@).len() && texts(seen@)[q] == key@;
                        assert(seen@[q]@ == key@);
                    }
                }
            }
            if !found {
                seen.push(key);
                let mut label = it.species.clone();
                label.append(" (");
                label.append(it.subspecies.as_str());
                label.append(")");
                out.push(label);
                proof {
                    assert(texts(out@) =~= texts(before_out).push(sighting_label(items@[i as int])));
                    assert(texts(seen@) =~= texts(before_seen).push(sighting_key(items@[i as int])));
                    assert(texts(seen@).to_set() =~= texts(before_seen).to_set().insert(
                        sighting_key(items@[i as int]),
                    )) by {
                        assert forall|x: Seq<char>| #[trigger] texts(seen@).to_set().contains(x)
                            == texts(before_seen).to_set().insert(sighting_key(items@[i as int])).contains(x) by {
                            if texts(before_seen).contains(x) {
                                let q = choose|q: int| 0 <= q < texts(before_seen).len() && texts(before_seen)[q] == x;
                                assert(texts(seen@)[q] == x);
                            }
                            if texts(seen@).contains(x) {
                                let q = choose|q: int| 0 <= q < texts(seen@).len() && texts(seen@)[q] == x;
                                if q < before_seen.len() {
                                    assert(texts(before_seen)[q] == x);
                                }
                            }
                            if x == sighting_key(items@[i as int]) {
                                assert(texts(seen@)[before_seen.len() as int] == x);
                            }
                        }
                    }
                }
            }
        }
        i = i + 1;
    }
    out
}

/// Hover text of the species around a point: `Flora: …` and `Fauna: …`
/// (each part only when it lists something), joined by ` · `.
pub open spec fn species_summary_text(flora: Seq<Seq<char>>, fauna: Seq<Seq<char>>) -> Seq<char> {
    let f = "Flora: "@ + joined(flora, ", "@);
    let a = "Fauna: "@ + joined(fauna, ", "@);
    if flora.len() > 0 && fauna.len() > 0 {
        f + " · "@ + a
    } else if flora.len() > 0 {
        f
    } else if fauna.len() > 0 {
        a
    } else {
        Seq::empty()
    }
}

/// The hover text of the flora and fauna sighted around a point.
pub fn species_summary(flora: &[SpeciesSighting], fauna: &[SpeciesSighting]) -> (s: String)
    ensures
        s@ == species_summary_text(
            species_labels(flora@, flora@.len()).1,
            species_labels(fauna@, fauna@.len()).1,
        ),
{
    let f = uniq_species(flora);
    let a = uniq_species(fauna);
    let mut s = String::new();
    if f.len() > 0 {
        s.append("Flora: ");
        push_joined(&mut s, &f, ", ");
    }
    if a.len() > 0 {
        if f.len() > 0 {
            s.append(" · ");
        }
        s.append("Fauna: ");
        push_joined(&mut s, &a, ", ");
    }
    proof {
        reveal_strlit("Flora: ");
        reveal_strlit("Fauna: ");
        reveal_strlit(", ");
        reveal_strlit(" · ");
    }
    s
}

/// The flora and fauna expected on one region tile.
#[derive(Debug, Clone)]
pub struct RegionTileExpect {
    pub flora: Vec<String>,
    pub fauna: Vec<String>,
}

/// Hover text of region tile `(cx, cy)` with the given expectations.
pub open spec fn tile_summary_text(cx: nat, cy: nat, flora: Seq<Seq<char>>, fauna: Seq<Seq<char>>) -> Seq<char> {
    let head = "Kafel ("@ + decimal(cx) + ", "@ + decimal(cy) + ") — "@;
    if flora.len() == 0 && fauna.len() == 0 {
        head + "brak spodziewanego życia"@
    } else {
        head + species_summary_text(flora, fauna)
    }
}

/// The hover text of region tile `(cx, cy)` of a region `across` tiles
/// wide: `None` off the region or without such a tile.
pub fn region_tile_summary(tiles: &[RegionTileExpect], across: u32, cx: u32, cy: u32) -> (s: Option<String>)
    requires
        cx < across && cy < across ==> cy * across + cx <= u32::MAX,
    ensures
        s is Some <==> (across > 0 && tiles@.len() > 0 && cx < across && cy < across && cy * across + cx
            < tiles@.len()),
        s matches Some(t) ==> t@ == tile_summary_text(
            cx as nat,
            cy as nat,
            texts(tiles@[cy * across + cx].flora@),
            texts(tiles@[cy * across + cx].fauna@),
        ),
{
    if across == 0 || tiles.len() == 0 {
        return None;
    }
    if cx >= across || cy >= across {
        return None;
    }
    let i = (cy * across + cx) as usize;
    if i >= tiles.len() {
        return None;
    }
    let tile = &tiles[i];
    let mut s = String::from_str("Kafel (");
    push_decimal(&mut s, cx as u64);
    s.append(", ");
    push_decimal(&mut s, cy as u64);
    s.append(") — ");
    proof {
        reveal_strlit("Kafel (");
        reveal_strlit(", ");
        reveal_strlit(") — ");
        reveal_strlit("brak spodziewanego życia");
        reveal_strlit("Flora: ");
        reveal_strlit("Fauna: ");
        reveal_strlit(" · ");
    }
    if tile.flora.len() == 0 && tile.fauna.len() == 0 {
        s.append("brak spodziewanego życia");
        return Some(s);
    }
    if tile.flora.len() > 0 {
        s.append("Flora: ");
        push_joined(&mut s, &tile.flora, ", ");
    }
    if tile.fauna.len() > 0 {
        if tile.flora.len() > 0 {
            s.append(" · ");
        }
        s.append("Fauna: ");
        push_joined(&mut s, &tile.fauna, ", ");
    }
    Some(s)
}

/// Base colour of the vegetation wash.
pub const VEGETATION_RGB: [u8; 3] = [74u8, 138u8, 90u8];

/// Legend entry of a fauna group: its label and overlay colour.
pub struct FaunaGroupInfo {
    pub label: &'static str,
    pub rgb: [u8; 3],
}

/// Label and colour of each fauna group.
pub open spec fn fauna_group_entry(g: FaunaGroup) -> (Seq<char>, Seq<u8>) {
    match g {
        FaunaGroup::LargeMammal => ("Duże ssaki"@, seq![196u8, 122u8, 44u8]),
        FaunaGroup::Bird => ("Ptaki"@, seq![58u8, 124u8, 184u8]),
        FaunaGroup::SmallFauna => ("Mała fauna"@, seq![138u8, 74u8, 154u8]),
    }
}

/// The legend entry of fauna group `g`.
pub fn fauna_group_info(g: FaunaGroup) -> (info: FaunaGroupInfo)
    ensures
        (info.label@, info.rgb@) == fauna_group_entry(g),
{
    proof {
        reveal_strlit("Duże ssaki");
        reveal_strlit("Ptaki");
        reveal_strlit("Mała fauna");
    }
    let info = match g {
        FaunaGroup::LargeMammal => FaunaGroupInfo { label: "Duże ssaki", rgb: [196u8, 122u8, 44u8] },
        FaunaGroup::Bird => FaunaGroupInfo { label: "Ptaki", rgb: [58u8, 124u8, 184u8] },
        FaunaGroup::SmallFauna => FaunaGroupInfo { label: "Mała fauna", rgb: [138u8, 74u8, 154u8] },
    };
    assert(info.rgb@ =~= fauna_group_entry(g).1);
    info
}

} // verus!
