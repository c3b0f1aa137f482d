use immigration::cell::{CellColor, ImmigrationCellState};

fn dead() -> ImmigrationCellState {
    ImmigrationCellState::Dead
}

fn alive(strain: i8) -> ImmigrationCellState {
    ImmigrationCellState::Alive(strain)
}

#[test]
fn is_alive_distinguishes_states() {
    assert!(alive(1).is_alive());
    assert!(alive(3).is_alive());
    assert!(!dead().is_alive());
}

#[test]
fn default_state_is_dead() {
    assert_eq!(ImmigrationCellState::default(), dead());
}

#[test]
fn color_mapping_is_one_color_per_strain() {
    assert_eq!(dead().color(), None);
    assert_eq!(alive(1).color(), Some(CellColor::Pink));
    assert_eq!(alive(2).color(), Some(CellColor::Aquamarine));
    assert_eq!(alive(3).color(), Some(CellColor::Gold));
}

#[test]
fn dead_cell_with_majority_strain_one_is_born_with_strain_one() {
    let neighbors = vec![alive(1), alive(1), alive(2)];
    assert_eq!(dead().new_cell_state(&neighbors), alive(1));
}

#[test]
fn alive_cell_with_one_alive_neighbor_dies() {
    let neighbors = vec![alive(1), dead(), dead(), dead(), dead()];
    assert_eq!(alive(2).new_cell_state(&neighbors), dead());
}

#[test]
fn alive_cell_with_three_alive_neighbors_keeps_its_strain() {
    let neighbors = vec![alive(1), alive(2), dead(), alive(1), dead()];
    assert_eq!(alive(3).new_cell_state(&neighbors), alive(3));
}

#[test]
fn alive_cell_with_two_alive_neighbors_survives() {
    let neighbors = vec![alive(2), dead(), alive(3)];
    assert_eq!(alive(1).new_cell_state(&neighbors), alive(1));
}

#[test]
fn alive_cell_with_no_alive_neighbors_dies_of_isolation() {
    let neighbors = vec![dead(), dead(), dead(), dead(), dead(), dead(), dead(), dead()];
    assert_eq!(alive(1).new_cell_state(&neighbors), dead());
}

#[test]
fn alive_cell_with_four_alive_neighbors_dies_of_overcrowding() {
    let neighbors = vec![alive(1), alive(1), alive(2), alive(3), dead()];
    assert_eq!(alive(2).new_cell_state(&neighbors), dead());
}

#[test]
fn dead_cell_with_all_dead_neighbors_stays_dead() {
    let neighbors = vec![dead(), dead(), dead()];
    assert_eq!(dead().new_cell_state(&neighbors), dead());
}

#[test]
fn dead_cell_with_two_alive_neighbors_stays_dead() {
    let neighbors = vec![alive(1), alive(2), dead(), dead()];
    assert_eq!(dead().new_cell_state(&neighbors), dead());
}

#[test]
fn dead_cell_with_four_alive_neighbors_stays_dead() {
    let neighbors = vec![alive(1), alive(1), alive(1), alive(1)];
    assert_eq!(dead().new_cell_state(&neighbors), dead());
}

#[test]
fn birth_takes_majority_strain_two() {
    let neighbors = vec![alive(2), alive(3), alive(2), dead(), dead()];
    assert_eq!(dead().new_cell_state(&neighbors), alive(2));
}

#[test]
fn birth_with_unanimous_parents_takes_their_strain() {
    let neighbors = vec![alive(3), alive(3), alive(3)];
    assert_eq!(dead().new_cell_state(&neighbors), alive(3));
}

#[test]
fn birth_tie_between_all_strains_goes_to_lowest() {
    let neighbors = vec![alive(3), alive(2), alive(1)];
    assert_eq!(dead().new_cell_state(&neighbors), alive(1));
}

#[test]
fn empty_neighborhood_means_death_or_no_birth() {
    let neighbors: Vec<ImmigrationCellState> = vec![];
    assert_eq!(alive(1).new_cell_state(&neighbors), dead());
    assert_eq!(dead().new_cell_state(&neighbors), dead());
}
