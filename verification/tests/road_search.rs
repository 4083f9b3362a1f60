use map_tests::road_search::{direction, neighbor, RoadSearch, DIRECTIONS};

fn run(
    cols: usize,
    rows: usize,
    start: (usize, usize),
    goal: (usize, usize),
    terrain: impl Fn(usize, usize) -> Option<u32>,
    extra: impl Fn(usize, usize) -> u32,
) -> (Option<Vec<(usize, usize)>>, u32) {
    let mut s = RoadSearch::new(cols, rows, start, goal);
    while let Some((x, y)) = s.next_cell() {
        for d in 0..DIRECTIONS {
            let Some((nx, ny)) = neighbor(cols, rows, x, y, d) else {
                continue;
            };
            let Some(t) = terrain(nx, ny) else {
                continue;
            };
            s.relax(x, y, d, t, extra(nx, ny));
        }
    }
    (s.route(), s.cost(goal.0, goal.1))
}

#[test]
fn open_grid_takes_the_diagonal() {
    let (r, c) = run(3, 3, (0, 0), (2, 2), |_, _| Some(10), |_, _| 0);
    assert_eq!(r, Some(vec![(0, 0), (1, 1), (2, 2)]));
    assert_eq!(c, 28);
}

#[test]
fn wall_with_a_gap_is_passed_through_the_gap() {
    let (r, c) = run(5, 3, (0, 1), (4, 1), |x, y| if x == 2 && y != 0 { None } else { Some(10) }, |_, _| 0);
    assert_eq!(r, Some(vec![(0, 1), (1, 1), (2, 0), (3, 0), (4, 1)]));
    assert_eq!(c, 48);
}

#[test]
fn closed_wall_leaves_no_route() {
    let (r, c) = run(5, 3, (0, 1), (4, 1), |x, _| if x == 2 { None } else { Some(10) }, |_, _| 0);
    assert_eq!(r, None);
    assert_eq!(c, u32::MAX);
}

#[test]
fn costly_cells_are_avoided() {
    let (r, c) = run(4, 4, (3, 0), (0, 3), |x, y| Some(if (x + y) % 2 == 1 { 30 } else { 10 }), |_, _| 0);
    assert_eq!(r, Some(vec![(3, 0), (3, 1), (2, 2), (1, 3), (0, 3)]));
    assert_eq!(c, 68);
}

#[test]
fn crossing_costs_add_up() {
    let (r, c) = run(6, 1, (0, 0), (5, 0), |_, _| Some(10), |x, _| if x == 3 { 50 } else { 0 });
    assert_eq!(r, Some(vec![(0, 0), (1, 0), (2, 0), (3, 0), (4, 0), (5, 0)]));
    assert_eq!(c, 100);
}

#[test]
fn start_is_goal() {
    let (r, c) = run(2, 2, (1, 1), (1, 1), |_, _| Some(10), |_, _| 0);
    assert_eq!(r, Some(vec![(1, 1)]));
    assert_eq!(c, 0);
}

#[test]
fn directions_and_edges() {
    assert_eq!(direction(0), (1, 0, 10));
    assert_eq!(direction(7), (-1, -1, 14));
    assert_eq!(neighbor(3, 3, 0, 0, 1), None);
    assert_eq!(neighbor(3, 3, 0, 0, 4), Some((1, 1)));
    assert_eq!(neighbor(3, 3, 2, 2, 4), None);
    assert_eq!(neighbor(3, 3, 1, 1, 7), Some((0, 0)));
}
