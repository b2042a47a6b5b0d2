use automaton_engine::cell::CellState;
use automaton_engine::grid::Grid;

#[test]
fn new_grid_is_all_off() {
    let g = Grid::new(7, 5);
    for r in 0..5 {
        for c in 0..7 {
            assert_eq!(g.at(r, c), CellState::Off);
        }
    }
    let (on, off) = g.distribution();
    assert_eq!((on, off), (0, 35));
}

#[test]
fn get_and_set_wrap_on_both_axes() {
    let mut g = Grid::new(10, 6);
    g.set(2, 3, CellState::On);
    assert_eq!(g.get(2, 3), CellState::On);
    // reads wrap: one full height and width further lands on the same cell
    assert_eq!(g.get(2 + 6, 3 + 10), CellState::On);
    assert_eq!(g.get(2 + 12, 3 + 20), CellState::On);
    // writes wrap the same way
    g.set(6, 10, CellState::On);
    assert_eq!(g.at(0, 0), CellState::On);
    g.set(11, 19, CellState::Off);
    assert_eq!(g.at(5, 9), CellState::Off);
}

#[test]
fn clear_resets_a_randomized_grid() {
    let mut g = Grid::new(8, 8);
    g.randomize(21, automaton_engine::rules::HALF_THRESHOLD);
    let (on, _) = g.distribution();
    assert!(on > 0, "a fair fill of 64 cells left none live");
    g.clear();
    let (on, off) = g.distribution();
    assert_eq!((on, off), (0, 64));
}

#[test]
fn cell_conversions_match_their_state() {
    assert_eq!(CellState::On.bit(), 1);
    assert_eq!(CellState::Off.bit(), 0);
    assert!(CellState::On.is_on());
    assert!(!CellState::Off.is_on());
}
