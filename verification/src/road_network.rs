//! The highway network between cities: a spanning forest built with
//! union-find over city pairs ordered by distance, plus a few extra
//! highways between nearby cities that are already connected.
use vstd::prelude::*;
use crate::prng::{noise_bits, spec_noise_bits};
use crate::settlement::{linked, RoadKind, CHANNEL_ROAD, NOISE_BELOW_0_14};

verus! {

/// Component labels with every node labelled `from` moved to `to`.
pub open spec fn relabel(l: Seq<int>, from: int, to: int) -> Seq<int> {
    Seq::new(l.len(), |i: int| if l[i] == from { to } else { l[i] })
}

/// Connected-component labels of `n` nodes after merging the first `k`
/// pairs of `pairs`: each node starts in a component of its own, and a pair
/// whose ends lie in different components merges them.
pub open spec fn labels_after(n: nat, pairs: Seq<(usize, usize, bool)>, k: nat) -> Seq<int>
    decreases k,
{
    if k == 0 || k > pairs.len() {
        Seq::new(n, |i: int| i)
    } else {
        let l = labels_after(n, pairs, (k - 1) as nat);
        let a = pairs[k - 1].0 as int;
        let b = pairs[k - 1].1 as int;
        if l[a] != l[b] {
            relabel(l, l[a], l[b])
        } else {
            l
        }
    }
}

/// Noise index of the extra-highway roll for the city pair `(a, b)`.
pub open spec fn pair_roll_index(a: usize, b: usize) -> u64 {
    (a * 1009 + b) as u64
}

/// Highway links chosen for the first `k` pairs: a pair that joins two
/// components always becomes a highway; a pair inside one component
/// becomes an extra highway when it is marked near and its roll is below 0.14.
pub open spec fn highways_after(seed: u64, n: nat, pairs: Seq<(usize, usize, bool)>, k: nat) -> Seq<
    (RoadKind, usize, usize),
>
    decreases k,
{
    if k == 0 || k > pairs.len() {
        Seq::empty()
    } else {
        let prev = highways_after(seed, n, pairs, (k - 1) as nat);
        let l = labels_after(n, pairs, (k - 1) as nat);
        let (a, b, near) = pairs[k - 1];
        if l[a as int] != l[b as int] {
            prev.push((RoadKind::Highway, a, b))
        } else if near && spec_noise_bits(seed, CHANNEL_ROAD, pair_roll_index(a, b))
            < NOISE_BELOW_0_14 {
            prev.push((RoadKind::Highway, a, b))
        } else {
            prev
        }
    }
}

/// Union-find forest `p` that represents the components `l`: parents stay
/// in the same component, each component has exactly one root, and ranks
/// strictly grow toward the root (bounded by `top`).
#[verifier::opaque]
pub open spec fn uf_wf(p: Seq<usize>, l: Seq<int>, r: Seq<nat>, top: nat) -> bool {
    &&& p.len() == l.len()
    &&& r.len() == l.len()
    &&& forall|x: int| 0 <= x < p.len() ==> (#[trigger] p[x]) < p.len()
    &&& forall|x: int| 0 <= x < p.len() ==> l[p[x] as int] == #[trigger] l[x]
    &&& forall|x: int, y: int|
        0 <= x < p.len() && 0 <= y < p.len() && #[trigger] p[x] == x && #[trigger] p[y] == y
            && l[x] == l[y] ==> x == y
    &&& forall|x: int| 0 <= x < p.len() && #[trigger] p[x] != x ==> r[p[x] as int] > r[x]
    &&& forall|x: int| 0 <= x < p.len() ==> #[trigger] r[x] < top
}

/// The root of `i`'s tree, halving the path on the way.
fn find(
    parent: &mut Vec<usize>,
    i: usize,
    Ghost(labels): Ghost<Seq<int>>,
    Ghost(rank): Ghost<Seq<nat>>,
    Ghost(top): Ghost<nat>,
) -> (root: usize)
    requires
        uf_wf(old(parent)@, labels, rank, top),
        i < old(parent)@.len(),
    ensures
        uf_wf(final(parent)@, labels, rank, top),
        final(parent)@.len() == old(parent)@.len(),
        root < final(parent)@.len(),
        final(parent)@[root as int] == root,
        labels[root as int] == labels[i as int],
        forall|x: int| 0 <= x < old(parent)@.len() && old(parent)@[x] == x ==> final(parent)@[x] == x,
{
    proof {
        reveal(uf_wf);
    }
    let mut j = i;
    while parent[j] != j
        invariant
            uf_wf(parent@, labels, rank, top),
            parent@.len() == old(parent)@.len(),
            j < parent@.len(),
            labels[j as int] == labels[i as int],
            forall|x: int| 0 <= x < old(parent)@.len() && old(parent)@[x] == x ==> parent@[x] == x,
        decreases top - rank[j as int],
    {
        proof {
            reveal(uf_wf);
        }
        let pj = parent[j];
        let gp = parent[pj];
        let ghost before = parent@;
        parent.set(j, gp);
        proof {
            let p = parent@;
            assert(gp != j) by {
                assert(rank[pj as int] > rank[j as int]);
                if before[pj as int] != pj {
                    assert(rank[gp as int] > rank[pj as int]);
                }
            }
            assert forall|x: int| 0 <= x < p.len() && #[trigger] p[x] != x implies rank[p[x] as int]
                > rank[x] by {
                if x == j {
                    if before[pj as int] != pj {
                        assert(rank[gp as int] > rank[pj as int]);
                    }
                }
            }
            assert forall|x: int, y: int|
                0 <= x < p.len() && 0 <= y < p.len() && #[trigger] p[x] == x && #[trigger] p[y]
                    == y && labels[x] == labels[y] implies x == y by {
                assert(before[x] == x && before[y] == y);
            }
            assert forall|x: int| 0 <= x < p.len() implies labels[p[x] as int] == #[trigger] labels[x] by {
                if x == j {
                    assert(labels[before[pj as int] as int] == labels[pj as int]);
                }
            }
            assert(uf_wf(parent@, labels, rank, top));
        }
        j = gp;
    }
    j
}

/// Rank of the new root after linking root `pa` under root `pb`.
pub open spec fn union_rank(rank: Seq<nat>, pa: int, pb: int) -> Seq<nat> {
    rank.update(
        pb,
        if rank[pb] > rank[pa] {
            rank[pb]
        } else {
            rank[pa] + 1
        },
    )
}

/// Linking root `pa` under root `pb` keeps the forest well formed for the
/// merged components.
proof fn lemma_union_wf(p: Seq<usize>, pa: int, pb: int, l: Seq<int>, r: Seq<nat>, top: nat)
    requires
        uf_wf(p, l, r, top),
        0 <= pa < p.len(),
        0 <= pb < p.len(),
        p[pa] == pa,
        p[pb] == pb,
        pa != pb,
    ensures
        uf_wf(p.update(pa, pb as usize), relabel(l, l[pa], l[pb]), union_rank(r, pa, pb), top + 1),
        l[pa] != l[pb],
{
    reveal(uf_wf);
    let la = l[pa];
    let lb = l[pb];
    assert(la != lb);
    let q = p.update(pa, pb as usize);
    let nl = relabel(l, la, lb);
    let nr = union_rank(r, pa, pb);
    assert forall|x: int| 0 <= x < q.len() implies nl[q[x] as int] == #[trigger] nl[x] by {
        if x != pa {
            assert(l[p[x] as int] == l[x]);
        }
    }
    assert forall|x: int, y: int|
        0 <= x < q.len() && 0 <= y < q.len() && #[trigger] q[x] == x && #[trigger] q[y] == y
            && nl[x] == nl[y] implies x == y by {
        assert(x != pa && y != pa);
        assert(p[x] == x && p[y] == y);
        if l[x] == la {
            assert(x == pa);
        }
        if l[y] == la {
            assert(y == pa);
        }
    }
    assert forall|x: int| 0 <= x < q.len() && #[trigger] q[x] != x implies nr[q[x] as int] > nr[x] by {
        if x != pa && x != pb {
            assert(r[p[x] as int] > r[x]);
        }
    }
    assert forall|x: int| 0 <= x < q.len() implies #[trigger] nr[x] < top + 1 by {
        assert(r[x] < top);
        assert(r[pa] < top);
    }
    assert forall|x: int| 0 <= x < q.len() implies (#[trigger] q[x]) < q.len() by {
        assert(p[x] < p.len());
    }
}

/// Highway links of the city network, given the city pairs sorted by
/// distance (each with whether the two cities are near each other).
#[verifier::rlimit(50)]
pub fn city_highways(seed: u64, n: usize, pairs: &[(usize, usize, bool)]) -> (links: Vec<
    (RoadKind, usize, usize),
>)
    requires
        forall|k: int| 0 <= k < pairs@.len() ==> (#[trigger] pairs@[k]).0 < n && pairs@[k].1 < n,
        forall|k: int| 0 <= k < pairs@.len() ==> (#[trigger] pairs@[k]).0 * 1009 + pairs@[k].1 <= u64::MAX,
    ensures
        links@ == highways_after(seed, n as nat, pairs@, pairs@.len()),
{
    let mut parent: Vec<usize> = Vec::new();
    let mut i: usize = 0;
    while i < n
        invariant
            i <= n,
            parent@.len() == i,
            forall|x: int| 0 <= x < i ==> parent@[x] == x,
        decreases n - i,
    {
        parent.push(i);
        i = i + 1;
    }
    let ghost mut labels: Seq<int> = Seq::new(n as nat, |x: int| x);
    let ghost mut rank: Seq<nat> = Seq::new(n as nat, |x: int| 0nat);
    let ghost mut top: nat = 1;
    proof {
        reveal(uf_wf);
        assert(uf_wf(parent@, labels, rank, top));
    }
    let mut links: Vec<(RoadKind, usize, usize)> = Vec::new();
    let mut k: usize = 0;
    while k < pairs.len()
        invariant
            k <= pairs@.len(),
            parent@.len() == n,
            labels.len() == n,
            uf_wf(parent@, labels, rank, top),
            labels == labels_after(n as nat, pairs@, k as nat),
            links@ == highways_after(seed, n as nat, pairs@, k as nat),
            forall|t: int| 0 <= t < pairs@.len() ==> (#[trigger] pairs@[t]).0 < n && pairs@[t].1 < n,
            forall|t: int| 0 <= t < pairs@.len() ==> (#[trigger] pairs@[t]).0 * 1009 + pairs@[t].1 <= u64::MAX,
        decreases pairs.len() - k,
    {
        let (a, b, near) = pairs[k];
        let pa = find(&mut parent, a, Ghost(labels), Ghost(rank), Ghost(top));
        let pb = find(&mut parent, b, Ghost(labels), Ghost(rank), Ghost(top));
        if pa != pb {
            let ghost before = parent@;
            let ghost la = labels[pa as int];
            let ghost lb = labels[pb as int];
            parent.set(pa, pb);
            proof {
                lemma_union_wf(before, pa as int, pb as int, labels, rank, top);
                assert(labels[a as int] == la && labels[b as int] == lb);
                labels = relabel(labels, la, lb);
                rank = union_rank(rank, pa as int, pb as int);
                top = top + 1;
            }
            links.push((RoadKind::Highway, a, b));
        } else {
            proof {
                assert(labels[a as int] == labels[b as int]) by {
                    assert(labels[pa as int] == labels[a as int]);
                }
            }
            if near && noise_bits(seed, CHANNEL_ROAD, a as u64 * 1009 + b as u64) < NOISE_BELOW_0_14 {
                links.push((RoadKind::Highway, a, b));
            }
        }
        k = k + 1;
    }
    links
}

/// `path` walks from settlement to settlement along `links`.
pub open spec fn is_link_path(links: Seq<(RoadKind, usize, usize)>, path: Seq<usize>) -> bool {
    &&& path.len() >= 1
    &&& forall|i: int| 0 <= i < path.len() - 1 ==> linked(links, #[trigger] path[i], path[i + 1])
}

/// Settlements `x` and `y` are joined by a chain of `links`.
pub open spec fn connected_by(links: Seq<(RoadKind, usize, usize)>, x: usize, y: usize) -> bool {
    exists|path: Seq<usize>| is_link_path(links, path) && path[0] == x && path.last() == y
}

proof fn lemma_connected_refl(links: Seq<(RoadKind, usize, usize)>, x: usize)
    ensures
        connected_by(links, x, x),
{
    let path = seq![x];
    assert(is_link_path(links, path));
    assert(is_link_path(links, path) && path[0] == x && path.last() == x);
}

proof fn lemma_linked_symmetric(links: Seq<(RoadKind, usize, usize)>, x: usize, y: usize)
    requires
        linked(links, x, y),
    ensures
        linked(links, y, x),
{
    let k = choose|k: int|
        0 <= k < links.len() && ((#[trigger] links[k]).1 == x && links[k].2 == y || links[k].1 == y
            && links[k].2 == x);
    assert(links[k].1 == y && links[k].2 == x || links[k].1 == x && links[k].2 == y);
}

proof fn lemma_connected_sym(links: Seq<(RoadKind, usize, usize)>, x: usize, y: usize)
    requires
        connected_by(links, x, y),
    ensures
        connected_by(links, y, x),
{
    let path = choose|path: Seq<usize>| is_link_path(links, path) && path[0] == x && path.last() == y;
    let rev = path.reverse();
    assert forall|i: int| 0 <= i < rev.len() - 1 implies linked(links, #[trigger] rev[i], rev[i + 1]) by {
        let j = path.len() - 2 - i;
        assert(rev[i] == path[j + 1]);
        assert(rev[i + 1] == path[j]);
        assert(linked(links, path[j], path[j + 1]));
        lemma_linked_symmetric(links, path[j], path[j + 1]);
    }
    assert(is_link_path(links, rev));
    assert(rev[0] == path[path.len() - 1]);
    assert(rev.last() == path[0]);
    assert(is_link_path(links, rev) && rev[0] == y && rev.last() == x);
}

proof fn lemma_connected_trans(links: Seq<(RoadKind, usize, usize)>, x: usize, y: usize, z: usize)
    requires
        connected_by(links, x, y),
        connected_by(links, y, z),
    ensures
        connected_by(links, x, z),
{
    let p = choose|path: Seq<usize>| is_link_path(links, path) && path[0] == x && path.last() == y;
    let q = choose|path: Seq<usize>| is_link_path(links, path) && path[0] == y && path.last() == z;
    let r = p + q.skip(1);
    assert forall|i: int| 0 <= i < r.len() - 1 implies linked(links, #[trigger] r[i], r[i + 1]) by {
        if i < p.len() - 1 {
            assert(r[i] == p[i] && r[i + 1] == p[i + 1]);
        } else if i == p.len() - 1 {
            assert(r[i] == y);
            assert(r[i + 1] == q[1]);
            assert(linked(links, q[0], q[1]));
        } else {
            let j = i - p.len() + 1;
            assert(r[i] == q[j] && r[i + 1] == q[j + 1]);
        }
    }
    assert(is_link_path(links, r));
    if q.len() == 1 {
        assert(r.last() == y);
    } else {
        assert(r.last() == q.last());
    }
}

proof fn lemma_connected_mono(
    links: Seq<(RoadKind, usize, usize)>,
    e: (RoadKind, usize, usize),
    x: usize,
    y: usize,
)
    requires
        connected_by(links, x, y),
    ensures
        connected_by(links.push(e), x, y),
{
    let p = choose|path: Seq<usize>| is_link_path(links, path) && path[0] == x && path.last() == y;
    let l2 = links.push(e);
    assert forall|i: int| 0 <= i < p.len() - 1 implies linked(l2, #[trigger] p[i], p[i + 1]) by {
        assert(linked(links, p[i], p[i + 1]));
        let k = choose|k: int|
            0 <= k < links.len() && ((#[trigger] links[k]).1 == p[i] && links[k].2 == p[i + 1]
                || links[k].1 == p[i + 1] && links[k].2 == p[i]);
        assert(l2[k] == links[k]);
    }
    assert(is_link_path(l2, p));
}

proof fn lemma_edge_connects(links: Seq<(RoadKind, usize, usize)>, kind: RoadKind, a: usize, b: usize)
    ensures
        connected_by(links.push((kind, a, b)), a, b),
{
    let l2 = links.push((kind, a, b));
    assert(l2[links.len() as int] == (kind, a, b));
    assert(linked(l2, a, b));
    let path = seq![a, b];
    assert(is_link_path(l2, path));
    assert(is_link_path(l2, path) && path[0] == a && path.last() == b);
}

/// Settlements with the same component label after `k` pairs are joined by
/// the highways chosen for those pairs.
proof fn lemma_components_connected(seed: u64, n: nat, pairs: Seq<(usize, usize, bool)>, k: nat)
    requires
        k <= pairs.len(),
        forall|t: int| 0 <= t < pairs.len() ==> (#[trigger] pairs[t]).0 < n && pairs[t].1 < n,
    ensures
        labels_after(n, pairs, k).len() == n,
        forall|x: usize, y: usize|
            x < n && y < n && #[trigger] labels_after(n, pairs, k)[x as int] == #[trigger] labels_after(
                n,
                pairs,
                k,
            )[y as int] ==> connected_by(highways_after(seed, n, pairs, k), x, y),
    decreases k,
{
    if k == 0 {
        assert forall|x: usize, y: usize|
            x < n && y < n && #[trigger] labels_after(n, pairs, k)[x as int] == #[trigger] labels_after(
                n,
                pairs,
                k,
            )[y as int] implies connected_by(highways_after(seed, n, pairs, k), x, y) by {
            lemma_connected_refl(highways_after(seed, n, pairs, k), x);
        }
    } else {
        let k1 = (k - 1) as nat;
        lemma_components_connected(seed, n, pairs, k1);
        let l = labels_after(n, pairs, k1);
        let links = highways_after(seed, n, pairs, k1);
        let (a, b, near) = pairs[k - 1];
        let nl = labels_after(n, pairs, k);
        let nlinks = highways_after(seed, n, pairs, k);
        assert forall|x: usize, y: usize|
            x < n && y < n && #[trigger] nl[x as int] == #[trigger] nl[y as int] implies connected_by(
            nlinks,
            x,
            y,
        ) by {
            if l[a as int] != l[b as int] {
                let e = (RoadKind::Highway, a, b);
                assert(nlinks == links.push(e));
                let la = l[a as int];
                let lb = l[b as int];
                if l[x as int] == l[y as int] {
                    lemma_connected_mono(links, e, x, y);
                } else if l[x as int] == la {
                    assert(l[y as int] == lb);
                    lemma_connected_mono(links, e, x, a);
                    lemma_edge_connects(links, RoadKind::Highway, a, b);
                    lemma_connected_mono(links, e, b, y);
                    lemma_connected_trans(nlinks, x, a, b);
                    lemma_connected_trans(nlinks, x, b, y);
                } else {
                    assert(l[y as int] == la && l[x as int] == lb);
                    lemma_connected_mono(links, e, y, a);
                    lemma_edge_connects(links, RoadKind::Highway, a, b);
                    lemma_connected_mono(links, e, b, x);
                    lemma_connected_trans(nlinks, y, a, b);
                    lemma_connected_trans(nlinks, y, b, x);
                    lemma_connected_sym(nlinks, y, x);
                }
            } else {
                assert(nl == l);
                if nlinks != links {
                    lemma_connected_mono(links, (RoadKind::Highway, a, b), x, y);
                }
            }
        }
    }
}

proof fn lemma_labels_persist(n: nat, pairs: Seq<(usize, usize, bool)>, k1: nat, k2: nat, x: int, y: int)
    requires
        k1 <= k2 <= pairs.len(),
        0 <= x < n,
        0 <= y < n,
        forall|t: int| 0 <= t < pairs.len() ==> (#[trigger] pairs[t]).0 < n && pairs[t].1 < n,
        labels_after(n, pairs, k1)[x] == labels_after(n, pairs, k1)[y],
    ensures
        labels_after(n, pairs, k2)[x] == labels_after(n, pairs, k2)[y],
        labels_after(n, pairs, k2).len() == n,
    decreases k2 - k1,
{
    lemma_labels_len(n, pairs, k1);
    if k1 < k2 {
        lemma_labels_len(n, pairs, k1 + 1);
        lemma_labels_persist(n, pairs, k1 + 1, k2, x, y);
    }
}

proof fn lemma_labels_len(n: nat, pairs: Seq<(usize, usize, bool)>, k: nat)
    requires
        forall|t: int| 0 <= t < pairs.len() ==> (#[trigger] pairs[t]).0 < n && pairs[t].1 < n,
    ensures
        labels_after(n, pairs, k).len() == n,
    decreases k,
{
    if k > 0 && k <= pairs.len() {
        lemma_labels_len(n, pairs, (k - 1) as nat);
    }
}

/// The pair `(a, b)` occurs in `pairs`, in either order.
pub open spec fn pair_listed(pairs: Seq<(usize, usize, bool)>, a: usize, b: usize) -> bool {
    exists|k: int|
        0 <= k < pairs.len() && ((#[trigger] pairs[k]).0 == a && pairs[k].1 == b || pairs[k].0 == b
            && pairs[k].1 == a)
}

/// When every pair of cities is offered, the chosen highways join all
/// cities into one network.
pub proof fn law_city_network_connected(
    seed: u64,
    n: nat,
    pairs: Seq<(usize, usize, bool)>,
    cities: Seq<usize>,
)
    requires
        forall|t: int| 0 <= t < pairs.len() ==> (#[trigger] pairs[t]).0 < n && pairs[t].1 < n,
        forall|i: int| 0 <= i < cities.len() ==> (#[trigger] cities[i]) < n,
        forall|i: int, j: int|
            0 <= i < j < cities.len() ==> #[trigger] pair_listed(pairs, cities[i], cities[j]),
    ensures
        forall|i: int, j: int|
            0 <= i < cities.len() && 0 <= j < cities.len() ==> connected_by(
                highways_after(seed, n, pairs, pairs.len()),
                #[trigger] cities[i],
                #[trigger] cities[j],
            ),
{
    let links = highways_after(seed, n, pairs, pairs.len());
    lemma_components_connected(seed, n, pairs, pairs.len());
    let fin = labels_after(n, pairs, pairs.len());
    assert forall|i: int, j: int| 0 <= i < cities.len() && 0 <= j < cities.len() implies connected_by(
        links,
        #[trigger] cities[i],
        #[trigger] cities[j],
    ) by {
        let x = cities[i];
        let y = cities[j];
        if i == j {
            lemma_connected_refl(links, x);
        } else {
            let (lo, hi) = if i < j {
                (i, j)
            } else {
                (j, i)
            };
            assert(pair_listed(pairs, cities[lo], cities[hi]));
            let k = choose|k: int|
                0 <= k < pairs.len() && ((#[trigger] pairs[k]).0 == cities[lo] && pairs[k].1
                    == cities[hi] || pairs[k].0 == cities[hi] && pairs[k].1 == cities[lo]);
            lemma_labels_len(n, pairs, k as nat);
            lemma_labels_len(n, pairs, (k + 1) as nat);
            let a = pairs[k].0 as int;
            let b = pairs[k].1 as int;
            assert(labels_after(n, pairs, (k + 1) as nat)[a] == labels_after(n, pairs, (k + 1) as nat)[b]);
            lemma_labels_persist(n, pairs, (k + 1) as nat, pairs.len(), a, b);
            assert(fin[x as int] == fin[y as int]);
        }
    }
}

/// Every link of the first `k` pairs is a highway laid along an offered pair.
proof fn lemma_links_are_offered_highways(seed: u64, n: nat, pairs: Seq<(usize, usize, bool)>, k: nat)
    ensures
        highways_after(seed, n, pairs, k).len() <= k,
        forall|t: int|
            0 <= t < highways_after(seed, n, pairs, k).len() ==> {
                let link = #[trigger] highways_after(seed, n, pairs, k)[t];
                &&& link.0 == RoadKind::Highway
                &&& exists|j: int| 0 <= j < pairs.len() && (#[trigger] pairs[j]).0 == link.1 && pairs[j].1 == link.2
            },
    decreases k,
{
    if k > 0 && k <= pairs.len() {
        lemma_links_are_offered_highways(seed, n, pairs, (k - 1) as nat);
        let prev = highways_after(seed, n, pairs, (k - 1) as nat);
        let cur = highways_after(seed, n, pairs, k);
        let j = k - 1;
        assert forall|t: int| 0 <= t < cur.len() implies {
            let link = #[trigger] cur[t];
            &&& link.0 == RoadKind::Highway
            &&& exists|j: int| 0 <= j < pairs.len() && (#[trigger] pairs[j]).0 == link.1 && pairs[j].1 == link.2
        } by {
            if t < prev.len() {
                assert(cur[t] == prev[t]);
            } else {
                assert(cur[t] == (RoadKind::Highway, pairs[j as int].0, pairs[j as int].1));
                assert(pairs[j as int].0 == cur[t].1 && pairs[j as int].1 == cur[t].2);
            }
        }
    }
}

/// The city network consists of highways only, each laid between the two
/// cities of an offered pair, and of no more links than pairs offered:
/// the spanning links and the extra links between near cities alike.
pub proof fn law_city_links_are_highways(seed: u64, n: nat, pairs: Seq<(usize, usize, bool)>)
    ensures
        highways_after(seed, n, pairs, pairs.len()).len() <= pairs.len(),
        forall|t: int|
            0 <= t < highways_after(seed, n, pairs, pairs.len()).len() ==> (#[trigger] highways_after(
                seed,
                n,
                pairs,
                pairs.len(),
            )[t]).0 == RoadKind::Highway,
        forall|t: int|
            0 <= t < highways_after(seed, n, pairs, pairs.len()).len() ==> exists|j: int|
                0 <= j < pairs.len() && (#[trigger] pairs[j]).0 == (#[trigger] highways_after(
                    seed,
                    n,
                    pairs,
                    pairs.len(),
                )[t]).1 && pairs[j].1 == highways_after(seed, n, pairs, pairs.len())[t].2,
{
    lemma_links_are_offered_highways(seed, n, pairs, pairs.len());
}

/// Settlement `x` is an end of one of `links`.
pub open spec fn on_some_link(links: Seq<(RoadKind, usize, usize)>, x: usize) -> bool {
    exists|k: int| 0 <= k < links.len() && ((#[trigger] links[k]).1 == x || links[k].2 == x)
}

/// A settlement joined to a different one by a chain of links has a link of
/// its own.
proof fn lemma_connected_has_link(links: Seq<(RoadKind, usize, usize)>, x: usize, y: usize)
    requires
        connected_by(links, x, y),
        x != y,
    ensures
        on_some_link(links, x),
{
    let path = choose|path: Seq<usize>| is_link_path(links, path) && path[0] == x && path.last() == y;
    assert(path.len() >= 2);
    assert(linked(links, path[0], path[1]));
    let k = choose|k: int|
        0 <= k < links.len() && ((#[trigger] links[k]).1 == path[0] && links[k].2 == path[1] || links[k].1
            == path[1] && links[k].2 == path[0]);
    assert(links[k].1 == x || links[k].2 == x);
}

/// When every pair of cities is offered and there are at least two cities,
/// every city lies on a highway.
pub proof fn law_every_city_on_a_highway(
    seed: u64,
    n: nat,
    pairs: Seq<(usize, usize, bool)>,
    cities: Seq<usize>,
)
    requires
        forall|t: int| 0 <= t < pairs.len() ==> (#[trigger] pairs[t]).0 < n && pairs[t].1 < n,
        forall|i: int| 0 <= i < cities.len() ==> (#[trigger] cities[i]) < n,
        forall|i: int, j: int|
            0 <= i < j < cities.len() ==> #[trigger] pair_listed(pairs, cities[i], cities[j]),
        forall|i: int, j: int| 0 <= i < j < cities.len() ==> #[trigger] cities[i] != #[trigger] cities[j],
        cities.len() >= 2,
    ensures
        forall|i: int|
            0 <= i < cities.len() ==> on_some_link(highways_after(seed, n, pairs, pairs.len()), #[trigger] cities[i]),
{
    let links = highways_after(seed, n, pairs, pairs.len());
    law_city_network_connected(seed, n, pairs, cities);
    assert forall|i: int| 0 <= i < cities.len() implies on_some_link(links, #[trigger] cities[i]) by {
        let j = if i == 0 {
            1int
        } else {
            0int
        };
        assert(connected_by(links, cities[i], cities[j]));
        if i < j {
            assert(cities[i] != cities[j]);
        } else {
            assert(cities[j] != cities[i]);
        }
        lemma_connected_has_link(links, cities[i], cities[j]);
    }
}

} // verus!
