use immigration::cell::ImmigrationCellState;
use immigration::engine::{step, step_many};
use immigration::grid::{Coordinate, Grid};

fn dead() -> ImmigrationCellState {
    ImmigrationCellState::Dead
}

fn alive(strain: i8) -> ImmigrationCellState {
    ImmigrationCellState::Alive(strain)
}

fn at(x: usize, y: usize) -> Coordinate {
    Coordinate { x, y }
}

fn snapshot(g: &Grid) -> Vec<Vec<ImmigrationCellState>> {
    let mut rows = Vec::new();
    for y in 0..=g.height() {
        let mut row = Vec::new();
        for x in 0..=g.width() {
            row.push(g.get(at(x, y)));
        }
        rows.push(row);
    }
    rows
}

#[test]
fn blinker_oscillates_and_keeps_its_strain() {
    // A vertical bar of three strain-1 cells in the middle of a 5x5 extent.
    let mut g = Grid::new_filled(4, 4, dead());
    g.replace_all(vec![
        vec![dead(), dead(), dead(), dead(), dead()],
        vec![dead(), dead(), alive(1), dead(), dead()],
        vec![dead(), dead(), alive(1), dead(), dead()],
        vec![dead(), dead(), alive(1), dead(), dead()],
        vec![dead(), dead(), dead(), dead(), dead()],
    ]);
    step(&mut g);
    // One step turns the bar horizontal: the two end cells die, the center
    // survives, and its left and right neighbors are born with strain 1.
    for y in 0..=4 {
        for x in 0..=4 {
            let expected = if y == 2 && (1..=3).contains(&x) {
                alive(1)
            } else {
                dead()
            };
            assert_eq!(g.get(at(x, y)), expected, "cell ({}, {})", x, y);
        }
    }
    // A second step turns it back vertical.
    step(&mut g);
    for y in 0..=4 {
        for x in 0..=4 {
            let expected = if x == 2 && (1..=3).contains(&y) {
                alive(1)
            } else {
                dead()
            };
            assert_eq!(g.get(at(x, y)), expected, "cell ({}, {})", x, y);
        }
    }
}

#[test]
fn newborn_cell_takes_majority_strain_of_its_three_parents() {
    // The dead cell at (1, 1) sees exactly three alive neighbors with
    // strains 1, 1 and 2, so it is born with strain 1.
    let mut g = Grid::new_filled(3, 3, dead());
    g.replace_all(vec![
        vec![alive(1), alive(1), alive(2), dead()],
        vec![dead(), dead(), dead(), dead()],
        vec![dead(), dead(), dead(), dead()],
        vec![dead(), dead(), dead(), dead()],
    ]);
    step(&mut g);
    assert_eq!(g.get(at(1, 1)), alive(1));
    // Its parents had at most one alive neighbor each, so they died.
    assert_eq!(g.get(at(0, 0)), dead());
    assert_eq!(g.get(at(2, 0)), dead());
    // The middle parent had two alive neighbors and survived.
    assert_eq!(g.get(at(1, 0)), alive(1));
}

#[test]
fn corner_of_an_all_dead_grid_stays_dead() {
    // The corner only has three possible neighbors: the grid is bounded,
    // not toroidal, so nothing wraps around to bring it to life.
    let mut g = Grid::new_filled(4, 4, dead());
    assert_eq!(g.neighbors(at(0, 0)).len(), 3);
    step(&mut g);
    assert_eq!(g.get(at(0, 0)), dead());
}

#[test]
fn step_preserves_extent() {
    let mut g = Grid::new_filled(5, 7, alive(2));
    for _ in 0..3 {
        step(&mut g);
        assert_eq!(g.width(), 5);
        assert_eq!(g.height(), 7);
    }
}

#[test]
fn zero_steps_leave_the_generation_unchanged() {
    let mut g = Grid::new_filled(3, 3, dead());
    g.replace_all(vec![
        vec![alive(1), dead(), alive(2), dead()],
        vec![dead(), alive(3), dead(), alive(1)],
        vec![alive(2), dead(), alive(3), dead()],
        vec![dead(), alive(1), dead(), alive(2)],
    ]);
    let before = snapshot(&g);
    step_many(&mut g, 0);
    assert_eq!(snapshot(&g), before);
}

#[test]
fn step_many_equals_repeated_single_steps() {
    let rows = vec![
        vec![dead(), alive(1), dead(), dead()],
        vec![alive(2), alive(2), dead(), alive(3)],
        vec![dead(), dead(), alive(1), dead()],
        vec![alive(3), dead(), dead(), alive(1)],
    ];
    let mut batched = Grid::from_rows(rows.clone());
    let mut single = Grid::from_rows(rows);
    step_many(&mut batched, 4);
    for _ in 0..4 {
        step(&mut single);
    }
    assert_eq!(snapshot(&batched), snapshot(&single));
}
