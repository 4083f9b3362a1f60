//! Route search for a road over the grid of road cells: the state of a
//! best-first (Dijkstra) search whose step costs the caller measures on the
//! terrain and hands to `relax`.  The search keeps its open cells ordered as
//! the heap of the generator pops them: lowest cost first, then the larger
//! column, then the larger row.  What is stated is each step's exact effect
//! and that a found route is a chain of touching cells from start to goal
//! along the recorded predecessors; since the costs come from the caller,
//! no claim is made that the route is a cheapest one.
use vstd::prelude::*;

verus! {

/// Column offset of direction `d` (east, west, south, north, then the four
/// diagonals).
pub open spec fn dir_dx(d: nat) -> int {
    if d == 0 || d == 4 || d == 5 {
        1
    } else if d == 1 || d == 6 || d == 7 {
        -1
    } else {
        0
    }
}

/// Row offset of direction `d`.
pub open spec fn dir_dy(d: nat) -> int {
    if d == 2 || d == 4 || d == 6 {
        1
    } else if d == 3 || d == 5 || d == 7 {
        -1
    } else {
        0
    }
}

/// Length weight of a step in direction `d`: 10 straight, 14 diagonal.
pub open spec fn dir_step(d: nat) -> u32 {
    if d < 4 {
        10
    } else {
        14
    }
}

/// Number of step directions.
pub const DIRECTIONS: usize = 8usize;

/// The eight directions: column offset, row offset, step weight.
pub fn direction(d: usize) -> (r: (i32, i32, u32))
    requires
        d < DIRECTIONS,
    ensures
        r.0 == dir_dx(d as nat),
        r.1 == dir_dy(d as nat),
        r.2 == dir_step(d as nat),
{
    match d {
        0 => (1, 0, 10),
        1 => (-1, 0, 10),
        2 => (0, 1, 10),
        3 => (0, -1, 10),
        4 => (1, 1, 14),
        5 => (1, -1, 14),
        6 => (-1, 1, 14),
        _ => (-1, -1, 14),
    }
}

/// Cell `(x, y)` stepped in direction `d`, when it stays on a `cols` by
/// `rows` grid.
pub open spec fn neighbor_of(cols: nat, rows: nat, x: nat, y: nat, d: nat) -> Option<(nat, nat)> {
    let nx = x + dir_dx(d);
    let ny = y + dir_dy(d);
    if 0 <= nx < cols && 0 <= ny < rows {
        Some((nx as nat, ny as nat))
    } else {
        None
    }
}

/// The grid neighbour of `(x, y)` in direction `d`, if it is on the grid.
pub fn neighbor(cols: usize, rows: usize, x: usize, y: usize, d: usize) -> (r: Option<(usize, usize)>)
    requires
        d < DIRECTIONS,
        x < cols,
        y < rows,
    ensures
        r matches Some(c) ==> neighbor_of(cols as nat, rows as nat, x as nat, y as nat, d as nat)
            == Some((c.0 as nat, c.1 as nat)),
        r is None ==> neighbor_of(cols as nat, rows as nat, x as nat, y as nat, d as nat) is None,
{
    let (dx, dy, _) = direction(d);
    if (dx < 0 && x == 0) || (dx > 0 && x + 1 >= cols) || (dy < 0 && y == 0) || (dy > 0 && y + 1
        >= rows) {
        return None;
    }
    let nx = if dx < 0 {
        x - 1
    } else if dx > 0 {
        x + 1
    } else {
        x
    };
    let ny = if dy < 0 {
        y - 1
    } else if dy > 0 {
        y + 1
    } else {
        y
    };
    Some((nx, ny))
}

/// Cells `a` and `b` are different and touch, by side or corner.
pub open spec fn touching(a: (nat, nat), b: (nat, nat)) -> bool {
    &&& a != b
    &&& -1 <= a.0 - b.0 <= 1
    &&& -1 <= a.1 - b.1 <= 1
}

/// Open entry `a` (cost, column, row) is popped before `b`.
pub open spec fn ranks_before(a: (u32, usize, usize), b: (u32, usize, usize)) -> bool {
    a.0 < b.0 || (a.0 == b.0 && (a.1 > b.1 || (a.1 == b.1 && a.2 > b.2)))
}

pub fn entry_ranks_before(a: (u32, usize, usize), b: (u32, usize, usize)) -> (r: bool)
    ensures
        r == ranks_before(a, b),
{
    a.0 < b.0 || (a.0 == b.0 && (a.1 > b.1 || (a.1 == b.1 && a.2 > b.2)))
}

/// Row-major index of cell `(x, y)`.
pub open spec fn cell_index(cols: nat, x: nat, y: nat) -> nat {
    y * cols + x
}

proof fn lemma_cell_index(cols: nat, rows: nat, x: nat, y: nat)
    requires
        x < cols,
        y < rows,
    ensures
        cell_index(cols, x, y) < cols * rows,
{
    assert(y * cols + x < cols * rows) by (nonlinear_arith)
        requires
            x < cols,
            y < rows,
    ;
}

proof fn lemma_cell_index_injective(cols: nat, x1: nat, y1: nat, x2: nat, y2: nat)
    requires
        x1 < cols,
        x2 < cols,
        cell_index(cols, x1, y1) == cell_index(cols, x2, y2),
    ensures
        x1 == x2 && y1 == y2,
{
    if y1 < y2 {
        assert(y1 * cols + x1 < y2 * cols + x2) by (nonlinear_arith)
            requires
                y1 < y2,
                x1 < cols,
        ;
    } else if y2 < y1 {
        assert(y2 * cols + x2 < y1 * cols + x1) by (nonlinear_arith)
            requires
                y2 < y1,
                x2 < cols,
        ;
    }
}

/// Where a new open entry goes so that the list stays ordered with the
/// entry popped first at the end: after every entry it ranks before.
pub open spec fn insert_pos(f: Seq<(u32, usize, usize)>, e: (u32, usize, usize), i: nat) -> nat
    decreases f.len() - i,
{
    if i >= f.len() {
        f.len()
    } else if ranks_before(f[i as int], e) {
        i
    } else {
        insert_pos(f, e, i + 1)
    }
}

/// Index just past the last entry of `f[..k]` that is still current (its
/// cost is the cell's best known cost); 0 if there is none.
pub open spec fn top_live(f: Seq<(u32, usize, usize)>, dist: Seq<u32>, cols: nat, k: nat) -> nat
    decreases k,
{
    if k == 0 || k > f.len() {
        0
    } else if f[k - 1].0 == dist[cell_index(cols, f[k - 1].1 as nat, f[k - 1].2 as nat) as int] {
        k
    } else {
        top_live(f, dist, cols, (k - 1) as nat)
    }
}

/// Cost of a step of weight `step` over terrain cost `terrain` with
/// `extra` for a river crossing, added to `cost`, saturating.
pub open spec fn step_total(cost: u32, step: u32, terrain: u32, extra: u32) -> u32 {
    let a = if cost + step * terrain / 10 > u32::MAX {
        u32::MAX
    } else {
        (cost + step * terrain / 10) as u32
    };
    if a + extra > u32::MAX {
        u32::MAX
    } else {
        (a + extra) as u32
    }
}

/// A relaxation in any of the eight directions reaches the neighbour at the
/// current cost plus the step's length weight (10 straight, 14 diagonal)
/// times the terrain cost over ten, plus the river-crossing extra, capped at
/// `u32::MAX`: below the cap a crossing extra of `e` costs exactly `e` more
/// than the same step with none, straight or diagonal, and the neighbour is
/// never reached more cheaply than the cell it is reached from.
pub proof fn law_step_cost_adds_every_part(cost: u32, d: nat, terrain: u32, extra: u32)
    requires
        d < 8,
        dir_step(d) * terrain <= u32::MAX,
    ensures
        dir_step(d) == (if dir_dx(d) != 0 && dir_dy(d) != 0 {
            14u32
        } else {
            10u32
        }),
        cost + dir_step(d) * terrain / 10 + extra <= u32::MAX ==> step_total(cost, dir_step(d), terrain, extra)
            == cost + dir_step(d) * terrain / 10 + extra,
        cost + dir_step(d) * terrain / 10 + extra <= u32::MAX ==> step_total(cost, dir_step(d), terrain, extra)
            == step_total(cost, dir_step(d), terrain, 0) + extra,
        cost + dir_step(d) * terrain / 10 + extra > u32::MAX ==> step_total(cost, dir_step(d), terrain, extra)
            == u32::MAX,
        step_total(cost, dir_step(d), terrain, extra) >= cost,
        step_total(cost, dir_step(d), terrain, extra) >= step_total(cost, dir_step(d), terrain, 0),
{
}

/// The state of one route search.
pub struct RoadSearch {
    cols: usize,
    rows: usize,
    start: (usize, usize),
    goal: (usize, usize),
    dist: Vec<u32>,
    prev: Vec<Option<(usize, usize)>>,
    open: Vec<(u32, usize, usize)>,
    stamp: Ghost<Seq<nat>>,
    clock: Ghost<nat>,
}

impl RoadSearch {
    pub closed spec fn grid_cols(&self) -> nat {
        self.cols as nat
    }

    pub closed spec fn grid_rows(&self) -> nat {
        self.rows as nat
    }

    pub closed spec fn start_cell(&self) -> (nat, nat) {
        (self.start.0 as nat, self.start.1 as nat)
    }

    pub closed spec fn goal_cell(&self) -> (nat, nat) {
        (self.goal.0 as nat, self.goal.1 as nat)
    }

    /// Best known cost of every cell, row-major (`u32::MAX` for unreached).
    pub closed spec fn costs(&self) -> Seq<u32> {
        self.dist@
    }

    /// The cell each cell was last reached from, row-major.
    pub closed spec fn came_from(&self) -> Seq<Option<(usize, usize)>> {
        self.prev@
    }

    /// The open entries, the one popped first at the end.
    pub closed spec fn open_entries(&self) -> Seq<(u32, usize, usize)> {
        self.open@
    }

    /// Best known cost of cell `(x, y)`.
    pub open spec fn cost_at(&self, x: nat, y: nat) -> u32 {
        self.costs()[cell_index(self.grid_cols(), x, y) as int]
    }

    pub closed spec fn wf(&self) -> bool {
        let cols = self.cols as nat;
        let rows = self.rows as nat;
        let n = cols * rows;
        let dist = self.dist@;
        let prev = self.prev@;
        let stamp = self.stamp@;
        &&& 0 < cols && 0 < rows && n <= usize::MAX
        &&& self.start.0 < cols && self.start.1 < rows
        &&& self.goal.0 < cols && self.goal.1 < rows
        &&& dist.len() == n && prev.len() == n && stamp.len() == n
        &&& dist[cell_index(cols, self.start.0 as nat, self.start.1 as nat) as int] == 0
        &&& forall|x: nat, y: nat|
            x < cols && y < rows ==> #[trigger] self.link_ok(x, y)
        &&& forall|i: int, j: int|
            0 <= i < j < self.open@.len() ==> ranks_before(#[trigger] self.open@[j], #[trigger] self.open@[i])
        &&& forall|i: int|
            0 <= i < self.open@.len() ==> {
                let e = #[trigger] self.open@[i];
                &&& e.1 < cols
                &&& e.2 < rows
                &&& e.0 >= dist[cell_index(cols, e.1 as nat, e.2 as nat) as int]
            }
    }

    /// The predecessor link of cell `(x, y)` is sound: the start has none,
    /// every other reached cell has one, and it points at a touching cell
    /// that is cheaper, or as cheap and reached earlier.
    pub closed spec fn link_ok(&self, x: nat, y: nat) -> bool {
        let cols = self.cols as nat;
        let c = cell_index(cols, x, y) as int;
        let dist = self.dist@;
        let stamp = self.stamp@;
        let is_start = x == self.start.0 && y == self.start.1;
        &&& is_start ==> self.prev@[c] is None
        &&& !is_start && dist[c] < u32::MAX ==> self.prev@[c] is Some
        &&& self.prev@[c] matches Some(p) ==> {
            let pc = cell_index(cols, p.0 as nat, p.1 as nat) as int;
            &&& p.0 < cols && p.1 < self.rows
            &&& touching((p.0 as nat, p.1 as nat), (x, y))
            &&& dist[c] < u32::MAX
            &&& (dist[pc] < dist[c] || (dist[pc] == dist[c] && stamp[pc] < stamp[c]))
        }
        &&& stamp[c] < self.clock@
    }
}

/// An ordered open list with `e` inserted at `insert_pos` stays ordered,
/// provided `e` is none of its entries.
proof fn lemma_insert_ordered(f: Seq<(u32, usize, usize)>, e: (u32, usize, usize))
    requires
        forall|i: int, j: int| 0 <= i < j < f.len() ==> ranks_before(#[trigger] f[j], #[trigger] f[i]),
        forall|i: int| 0 <= i < f.len() ==> #[trigger] f[i] != e,
    ensures
        insert_pos(f, e, 0) <= f.len(),
        ({
            let g = f.insert(insert_pos(f, e, 0) as int, e);
            forall|i: int, j: int| 0 <= i < j < g.len() ==> ranks_before(#[trigger] g[j], #[trigger] g[i])
        }),
{
    let p = insert_pos(f, e, 0);
    lemma_insert_pos(f, e, 0);
    let g = f.insert(p as int, e);
    assert forall|i: int, j: int| 0 <= i < j < g.len() implies ranks_before(#[trigger] g[j], #[trigger] g[i]) by {
        if j < p {
            assert(g[i] == f[i] && g[j] == f[j]);
        } else if j == p {
            assert(g[i] == f[i]);
            assert(!ranks_before(f[i], e));
        } else if i < p {
            assert(g[i] == f[i] && g[j] == f[j - 1]);
            assert(!ranks_before(f[i], e));
            assert(ranks_before(f[p as int], e));
        } else if i == p {
            assert(g[j] == f[j - 1]);
            assert(ranks_before(f[p as int], e));
        } else {
            assert(g[i] == f[i - 1] && g[j] == f[j - 1]);
        }
    }
}

proof fn lemma_insert_pos(f: Seq<(u32, usize, usize)>, e: (u32, usize, usize), i: nat)
    requires
        i <= f.len(),
        forall|a: int| 0 <= a < i ==> !ranks_before(#[trigger] f[a], e),
    ensures
        i <= insert_pos(f, e, i) <= f.len(),
        forall|a: int| 0 <= a < insert_pos(f, e, i) ==> !ranks_before(#[trigger] f[a], e),
        insert_pos(f, e, i) < f.len() ==> ranks_before(f[insert_pos(f, e, i) as int], e),
    decreases f.len() - i,
{
    if i < f.len() && !ranks_before(f[i as int], e) {
        lemma_insert_pos(f, e, i + 1);
    }
}

impl RoadSearch {
    /// A search on a `cols` by `rows` grid from `start` to `goal`: the start
    /// costs nothing and is the only open cell.
    pub fn new(cols: usize, rows: usize, start: (usize, usize), goal: (usize, usize)) -> (s: Self)
        requires
            0 < cols,
            0 < rows,
            cols * rows <= usize::MAX,
            start.0 < cols && start.1 < rows,
            goal.0 < cols && goal.1 < rows,
        ensures
            s.wf(),
            s.grid_cols() == cols,
            s.grid_rows() == rows,
            s.start_cell() == (start.0 as nat, start.1 as nat),
            s.goal_cell() == (goal.0 as nat, goal.1 as nat),
            s.costs() == Seq::new(
                (cols * rows) as nat,
                |i: int|
                    if i == cell_index(cols as nat, start.0 as nat, start.1 as nat) {
                        0u32
                    } else {
                        u32::MAX
                    },
            ),
            s.came_from() == Seq::new((cols * rows) as nat, |i: int| None::<(usize, usize)>),
            s.open_entries() == seq![(0u32, start.0, start.1)],
    {
        let n = cols * rows;
        proof {
            lemma_cell_index(cols as nat, rows as nat, start.0 as nat, start.1 as nat);
        }
        let si = start.1 * cols + start.0;
        let mut dist: Vec<u32> = Vec::new();
        let mut prev: Vec<Option<(usize, usize)>> = Vec::new();
        let mut i: usize = 0;
        while i < n
            invariant
                i <= n,
                si < n,
                dist@ == Seq::new(i as nat, |k: int| if k == si { 0u32 } else { u32::MAX }),
                prev@ == Seq::new(i as nat, |k: int| None::<(usize, usize)>),
            decreases n - i,
        {
            dist.push(if i == si { 0 } else { u32::MAX });
            prev.push(None);
            i = i + 1;
        }
        let mut open: Vec<(u32, usize, usize)> = Vec::new();
        open.push((0, start.0, start.1));
        let s = RoadSearch {
            cols,
            rows,
            start,
            goal,
            dist,
            prev,
            open,
            stamp: Ghost(Seq::new(n as nat, |k: int| 0nat)),
            clock: Ghost(1nat),
        };
        proof {
            assert forall|x: nat, y: nat| x < cols && y < rows implies #[trigger] s.link_ok(x, y) by {
                lemma_cell_index(cols as nat, rows as nat, x, y);
                if cell_index(cols as nat, x, y) == si {
                    lemma_cell_index_injective(cols as nat, x, y, start.0 as nat, start.1 as nat);
                }
            }
        }
        s
    }

    /// Tries the step from open cell `(x, y)` in direction `d`, whose target
    /// cell has terrain cost `terrain` and river-crossing cost `extra`.  When
    /// the step reaches the neighbour more cheaply than before, the
    /// neighbour's cost and predecessor are updated, it is opened at its new
    /// cost, and the result is `true`.
    pub fn relax(&mut self, x: usize, y: usize, d: usize, terrain: u32, extra: u32) -> (improved: bool)
        requires
            old(self).wf(),
            x < old(self).grid_cols(),
            y < old(self).grid_rows(),
            d < DIRECTIONS,
            dir_step(d as nat) * terrain <= u32::MAX,
        ensures
            final(self).wf(),
            final(self).grid_cols() == old(self).grid_cols(),
            final(self).grid_rows() == old(self).grid_rows(),
            final(self).start_cell() == old(self).start_cell(),
            final(self).goal_cell() == old(self).goal_cell(),
            ({
                let cols = old(self).grid_cols();
                match neighbor_of(cols, old(self).grid_rows(), x as nat, y as nat, d as nat) {
                    None => !improved && *final(self) == *old(self),
                    Some(nb) => {
                        let ni = cell_index(cols, nb.0, nb.1) as int;
                        let next = step_total(old(self).cost_at(x as nat, y as nat), dir_step(d as nat), terrain, extra);
                        let e = (next, nb.0 as usize, nb.1 as usize);
                        &&& improved == (next < old(self).costs()[ni])
                        &&& improved ==> {
                            &&& final(self).costs() == old(self).costs().update(ni, next)
                            &&& final(self).came_from() == old(self).came_from().update(ni, Some((x, y)))
                            &&& final(self).open_entries() == old(self).open_entries().insert(
                                insert_pos(old(self).open_entries(), e, 0) as int,
                                e,
                            )
                        }
                        &&& !improved ==> *final(self) == *old(self)
                    },
                }
            }),
    {
        let nb = neighbor(self.cols, self.rows, x, y, d);
        match nb {
            None => false,
            Some((nx, ny)) => {
                let ghost cols = self.cols as nat;
                let ghost rows = self.rows as nat;
                proof {
                    lemma_cell_index(cols, rows, x as nat, y as nat);
                    lemma_cell_index(cols, rows, nx as nat, ny as nat);
                }
                let ci = y * self.cols + x;
                let ni = ny * self.cols + nx;
                let (_, _, step) = direction(d);
                let cost = self.dist[ci];
                let next = cost.saturating_add(step * terrain / 10).saturating_add(extra);
                if next < self.dist[ni] {
                    let ghost old_self = *self;
                    let e = (next, nx, ny);
                    let mut p: usize = 0;
                    while p < self.open.len()
                        invariant
                            p <= self.open@.len(),
                            insert_pos(self.open@, e, 0) == insert_pos(self.open@, e, p as nat),
                        ensures
                            p <= self.open@.len(),
                            insert_pos(self.open@, e, 0) == p as nat,
                        decreases self.open.len() - p,
                    {
                        if entry_ranks_before(self.open[p], e) {
                            break;
                        }
                        p = p + 1;
                    }
                    self.dist.set(ni, next);
                    self.prev.set(ni, Some((x, y)));
                    self.open.insert(p, e);
                    proof {
                        let t = self.clock@;
                        self.stamp = Ghost(self.stamp@.update(ni as int, t));
                        self.clock = Ghost(t + 1);
                        self.lemma_relax_wf(old_self, x as nat, y as nat, nx as nat, ny as nat, next);
                    }
                    true
                } else {
                    false
                }
            },
        }
    }

    proof fn lemma_relax_wf(&self, old_self: RoadSearch, x: nat, y: nat, nx: nat, ny: nat, next: u32)
        requires
            old_self.wf(),
            x < old_self.cols && y < old_self.rows,
            nx < old_self.cols && ny < old_self.rows,
            touching((x, y), (nx, ny)),
            next >= old_self.dist@[cell_index(old_self.cols as nat, x, y) as int],
            next < old_self.dist@[cell_index(old_self.cols as nat, nx, ny) as int],
            self.cols == old_self.cols && self.rows == old_self.rows,
            self.start == old_self.start && self.goal == old_self.goal,
            self.dist@ == old_self.dist@.update(cell_index(old_self.cols as nat, nx, ny) as int, next),
            self.prev@ == old_self.prev@.update(
                cell_index(old_self.cols as nat, nx, ny) as int,
                Some((x as usize, y as usize)),
            ),
            self.stamp@ == old_self.stamp@.update(
                cell_index(old_self.cols as nat, nx, ny) as int,
                old_self.clock@,
            ),
            self.clock@ == old_self.clock@ + 1,
            self.open@ == old_self.open@.insert(
                insert_pos(old_self.open@, (next, nx as usize, ny as usize), 0) as int,
                (next, nx as usize, ny as usize),
            ),
        ensures
            self.wf(),
    {
        let cols = self.cols as nat;
        let rows = self.rows as nat;
        let ni = cell_index(cols, nx, ny);
        let ci = cell_index(cols, x, y);
        let e = (next, nx as usize, ny as usize);
        lemma_cell_index(cols, rows, nx, ny);
        lemma_cell_index(cols, rows, x, y);
        lemma_cell_index(cols, rows, self.start.0 as nat, self.start.1 as nat);
        if ni == ci {
            lemma_cell_index_injective(cols, nx, ny, x, y);
        }
        if ni == cell_index(cols, self.start.0 as nat, self.start.1 as nat) {
            lemma_cell_index_injective(cols, nx, ny, self.start.0 as nat, self.start.1 as nat);
        }
        assert forall|i: int| 0 <= i < old_self.open@.len() implies #[trigger] old_self.open@[i] != e by {
            let f = old_self.open@[i];
            if f.1 == e.1 && f.2 == e.2 {
                assert(f.0 >= old_self.dist@[ni as int]);
            }
        }
        lemma_insert_ordered(old_self.open@, e);
        let p = insert_pos(old_self.open@, e, 0);
        assert forall|i: int| 0 <= i < self.open@.len() implies {
            let f = #[trigger] self.open@[i];
            &&& f.1 < cols
            &&& f.2 < rows
            &&& f.0 >= self.dist@[cell_index(cols, f.1 as nat, f.2 as nat) as int]
        } by {
            let f = self.open@[i];
            if i != p {
                let k = if i < p { i } else { i - 1 };
                assert(f == old_self.open@[k]);
                lemma_cell_index(cols, rows, f.1 as nat, f.2 as nat);
                if cell_index(cols, f.1 as nat, f.2 as nat) == ni {
                    lemma_cell_index_injective(cols, f.1 as nat, f.2 as nat, nx, ny);
                }
            }
        }
        assert forall|a: nat, b: nat| a < cols && b < rows implies #[trigger] self.link_ok(a, b) by {
            assert(old_self.link_ok(a, b));
            let c = cell_index(cols, a, b);
            lemma_cell_index(cols, rows, a, b);
            if c == ni {
                lemma_cell_index_injective(cols, a, b, nx, ny);
                assert(self.prev@[c as int] == Some((x as usize, y as usize)));
                assert(touching((x, y), (a, b)));
                assert(self.dist@[c as int] == next);
                assert(self.dist@[ci as int] == old_self.dist@[ci as int]);
                assert(self.stamp@[ci as int] == old_self.stamp@[ci as int]);
                assert(old_self.link_ok(x, y));
                assert(self.stamp@[ci as int] < old_self.clock@);
                assert(self.stamp@[c as int] == old_self.clock@);
                assert(!(a == self.start.0 && b == self.start.1));
            } else {
                if let Some(q) = self.prev@[c as int] {
                    lemma_cell_index(cols, rows, q.0 as nat, q.1 as nat);
                    if cell_index(cols, q.0 as nat, q.1 as nat) == ni {
                        lemma_cell_index_injective(cols, q.0 as nat, q.1 as nat, nx, ny);
                    }
                }
            }
        }
    }
}

impl RoadSearch {
    /// Pops open entries, dropping those made stale by a cheaper later
    /// visit, up to the first current one.  That entry's cell is the next to
    /// expand; the search is over (`None`) when no current entry is left or
    /// the popped cell is the goal.
    pub fn next_cell(&mut self) -> (r: Option<(usize, usize)>)
        requires
            old(self).wf(),
        ensures
            final(self).wf(),
            final(self).grid_cols() == old(self).grid_cols(),
            final(self).grid_rows() == old(self).grid_rows(),
            final(self).start_cell() == old(self).start_cell(),
            final(self).goal_cell() == old(self).goal_cell(),
            final(self).costs() == old(self).costs(),
            final(self).came_from() == old(self).came_from(),
            ({
                let f = old(self).open_entries();
                let k = top_live(f, old(self).costs(), old(self).grid_cols(), f.len());
                &&& final(self).open_entries() == (if k == 0 {
                    Seq::empty()
                } else {
                    f.take(k - 1)
                })
                &&& r == (if k == 0 || (f[k - 1].1 as nat, f[k - 1].2 as nat) == old(self).goal_cell() {
                    None
                } else {
                    Some((f[k - 1].1, f[k - 1].2))
                })
            }),
            r matches Some(c) ==> forall|i: int|
                0 <= i < final(self).open_entries().len() ==> ranks_before(
                    (final(self).cost_at(c.0 as nat, c.1 as nat), c.0, c.1),
                    #[trigger] final(self).open_entries()[i],
                ),
    {
        let ghost f = self.open@;
        let ghost cols = self.cols as nat;
        let ghost k = top_live(f, self.dist@, cols, f.len());
        loop
            invariant
                self.wf(),
                self.cols == old(self).cols && self.rows == old(self).rows,
                self.start == old(self).start && self.goal == old(self).goal,
                self.dist@ == old(self).dist@ && self.prev@ == old(self).prev@,
                f == old(self).open@,
                cols == self.cols,
                self.open@ == f.take(self.open@.len() as int),
                self.open@.len() <= f.len(),
                k == top_live(f, self.dist@, cols, f.len()),
                k == top_live(f, self.dist@, cols, self.open@.len() as nat),
            decreases self.open@.len(),
        {
            let ghost before = self.open@;
            let ghost old_iter = *self;
            match self.open.pop() {
                None => {
                    proof {
                        assert(self.open@ =~= Seq::<(u32, usize, usize)>::empty());
                        assert(self.open@ =~= before.take(0));
                        self.lemma_open_prefix_wf(old_iter);
                    }
                    return None;
                },
                Some(e) => {
                    proof {
                        assert(e == f[before.len() - 1]);
                        assert(self.open@ =~= f.take(self.open@.len() as int));
                        assert(self.open@ =~= before.take(self.open@.len() as int));
                        self.lemma_open_prefix_wf(old_iter);
                        lemma_cell_index(cols, self.rows as nat, e.1 as nat, e.2 as nat);
                    }
                    let i = e.2 * self.cols + e.1;
                    if e.0 == self.dist[i] {
                        proof {
                            assert(k == before.len());
                            assert forall|j: int| 0 <= j < self.open@.len() implies ranks_before(
                                (e.0, e.1, e.2),
                                #[trigger] self.open@[j],
                            ) by {
                                assert(self.open@[j] == before[j]);
                            }
                        }
                        if e.1 == self.goal.0 && e.2 == self.goal.1 {
                            return None;
                        }
                        return Some((e.1, e.2));
                    }
                }
            }
        }
    }

    proof fn lemma_open_prefix_wf(&self, before: RoadSearch)
        requires
            before.wf(),
            self.cols == before.cols && self.rows == before.rows,
            self.start == before.start && self.goal == before.goal,
            self.dist@ == before.dist@ && self.prev@ == before.prev@,
            self.stamp@ == before.stamp@ && self.clock@ == before.clock@,
            self.open@.len() <= before.open@.len(),
            self.open@ == before.open@.take(self.open@.len() as int),
        ensures
            self.wf(),
    {
        assert forall|x: nat, y: nat| x < self.cols && y < self.rows implies #[trigger] self.link_ok(x, y) by {
            assert(before.link_ok(x, y));
        }
        assert forall|i: int, j: int| 0 <= i < j < self.open@.len() implies ranks_before(
            #[trigger] self.open@[j],
            #[trigger] self.open@[i],
        ) by {
            assert(self.open@[i] == before.open@[i] && self.open@[j] == before.open@[j]);
        }
        assert forall|i: int| 0 <= i < self.open@.len() implies {
            let e = #[trigger] self.open@[i];
            &&& e.1 < self.cols
            &&& e.2 < self.rows
            &&& e.0 >= self.dist@[cell_index(self.cols as nat, e.1 as nat, e.2 as nat) as int]
        } by {
            assert(self.open@[i] == before.open@[i]);
        }
    }

    /// Best known cost of cell `(x, y)` (`u32::MAX` while unreached).
    pub fn cost(&self, x: usize, y: usize) -> (c: u32)
        requires
            self.wf(),
            x < self.grid_cols(),
            y < self.grid_rows(),
        ensures
            c == self.cost_at(x as nat, y as nat),
    {
        proof {
            lemma_cell_index(self.cols as nat, self.rows as nat, x as nat, y as nat);
        }
        self.dist[y * self.cols + x]
    }

    /// The route found to the goal, from the start cell to the goal cell
    /// along the recorded predecessors; `None` while the goal is unreached.
    pub fn route(&self) -> (r: Option<Vec<(usize, usize)>>)
        requires
            self.wf(),
        ensures
            r is Some <==> self.cost_at(self.goal_cell().0, self.goal_cell().1) < u32::MAX,
            r matches Some(cells) ==> {
                &&& cells@.len() >= 1
                &&& (cells@[0].0 as nat, cells@[0].1 as nat) == self.start_cell()
                &&& (cells@.last().0 as nat, cells@.last().1 as nat) == self.goal_cell()
                &&& forall|i: int|
                    0 <= i < cells@.len() - 1 ==> {
                        let a = #[trigger] cells@[i];
                        let b = cells@[i + 1];
                        &&& self.came_from()[cell_index(self.grid_cols(), b.0 as nat, b.1 as nat) as int]
                            == Some(a)
                        &&& touching((a.0 as nat, a.1 as nat), (b.0 as nat, b.1 as nat))
                        &&& a.0 < self.grid_cols() && a.1 < self.grid_rows()
                    }
            },
    {
        let ghost cols = self.cols as nat;
        let ghost rows = self.rows as nat;
        proof {
            lemma_cell_index(cols, rows, self.goal.0 as nat, self.goal.1 as nat);
        }
        let gi = self.goal.1 * self.cols + self.goal.0;
        if self.dist[gi] == u32::MAX {
            return None;
        }
        let mut back: Vec<(usize, usize)> = Vec::new();
        back.push(self.goal);
        let mut cur = self.goal;
        proof {
            assert(self.link_ok(cur.0 as nat, cur.1 as nat));
        }
        while cur.0 != self.start.0 || cur.1 != self.start.1
            invariant
                self.wf(),
                cols == self.cols && rows == self.rows,
                cur.0 < cols && cur.1 < rows,
                self.dist@[cell_index(cols, cur.0 as nat, cur.1 as nat) as int] < u32::MAX,
                back@.len() >= 1,
                back@[0] == self.goal,
                back@.last() == cur,
                forall|i: int|
                    0 <= i < back@.len() - 1 ==> {
                        let b = #[trigger] back@[i];
                        let a = back@[i + 1];
                        &&& self.prev@[cell_index(cols, b.0 as nat, b.1 as nat) as int] == Some(a)
                        &&& touching((a.0 as nat, a.1 as nat), (b.0 as nat, b.1 as nat))
                        &&& a.0 < cols && a.1 < rows
                    },
            decreases
                self.dist@[cell_index(cols, cur.0 as nat, cur.1 as nat) as int],
                self.stamp@[cell_index(cols, cur.0 as nat, cur.1 as nat) as int],
        {
            proof {
                assert(self.link_ok(cur.0 as nat, cur.1 as nat));
                lemma_cell_index(cols, rows, cur.0 as nat, cur.1 as nat);
            }
            let ci = cur.1 * self.cols + cur.0;
            let p = match self.prev[ci] {
                Some(p) => p,
                None => {
                    proof {
                        assert(false);
                    }
                    return None;
                },
            };
            proof {
                lemma_cell_index(cols, rows, p.0 as nat, p.1 as nat);
            }
            back.push(p);
            cur = p;
        }
        let mut cells: Vec<(usize, usize)> = Vec::new();
        let n = back.len();
        let mut j: usize = 0;
        while j < n
            invariant
                j <= n == back@.len(),
                cells@.len() == j,
                forall|i: int| 0 <= i < j ==> #[trigger] cells@[i] == back@[n - 1 - i],
            decreases n - j,
        {
            cells.push(back[n - 1 - j]);
            j = j + 1;
        }
        proof {
            assert forall|i: int| 0 <= i < cells@.len() - 1 implies {
                let a = #[trigger] cells@[i];
                let b = cells@[i + 1];
                &&& self.prev@[cell_index(cols, b.0 as nat, b.1 as nat) as int] == Some(a)
                &&& touching((a.0 as nat, a.1 as nat), (b.0 as nat, b.1 as nat))
                &&& a.0 < cols && a.1 < rows
            } by {
                let t = n - 2 - i;
                assert(cells@[i] == back@[t + 1]);
                assert(cells@[i + 1] == back@[t]);
            }
        }
        Some(cells)
    }
}

} // verus!
