use automaton_engine::cell::CellState;
use automaton_engine::engine::{new_engine, AutomatonKind, EngineError};
use automaton_engine::rules::HALF_THRESHOLD;

fn snapshot(e: &automaton_engine::engine::Engine) -> Vec<CellState> {
    let mut cells = Vec::new();
    for r in 0..e.grid.height {
        for c in 0..e.grid.width {
            cells.push(e.grid.get(r, c));
        }
    }
    cells
}

#[test]
fn generation_starts_at_zero_and_counts_steps() {
    let mut e = new_engine(8, 8, 0, AutomatonKind::GameOfLife);
    assert_eq!(e.generation(), 0);
    e.step();
    assert_eq!(e.generation(), 1);
    e.step();
    e.step();
    assert_eq!(e.generation(), 3);
}

#[test]
fn game_of_life_block_is_a_still_life() {
    let mut e = new_engine(10, 10, 0, AutomatonKind::GameOfLife);
    e.clear();
    e.grid.set(4, 4, CellState::On);
    e.grid.set(4, 5, CellState::On);
    e.grid.set(5, 4, CellState::On);
    e.grid.set(5, 5, CellState::On);
    let before = snapshot(&e);
    e.step();
    let after = snapshot(&e);
    assert_eq!(before, after);
    assert_eq!(e.generation(), 1);
}

#[test]
fn game_of_life_blinker_oscillates() {
    let mut e = new_engine(9, 9, 0, AutomatonKind::GameOfLife);
    e.clear();
    e.grid.set(4, 3, CellState::On);
    e.grid.set(4, 4, CellState::On);
    e.grid.set(4, 5, CellState::On);
    let horizontal = snapshot(&e);
    e.step();
    // the row of three flips to a column of three
    assert_eq!(e.grid.get(3, 4), CellState::On);
    assert_eq!(e.grid.get(4, 4), CellState::On);
    assert_eq!(e.grid.get(5, 4), CellState::On);
    assert_eq!(e.grid.get(4, 3), CellState::Off);
    assert_eq!(e.grid.get(4, 5), CellState::Off);
    e.step();
    assert_eq!(snapshot(&e), horizontal);
}

#[test]
fn toroidal_wraparound_reaches_the_opposite_corner() {
    let mut e = new_engine(10, 10, 0, AutomatonKind::GameOfLife);
    e.clear();
    // three live cells, all of them neighbors of the bottom-right corner
    // only through wraparound across one or both axes
    e.grid.set(0, 0, CellState::On);
    e.grid.set(0, 9, CellState::On);
    e.grid.set(9, 0, CellState::On);
    e.step();
    // the corner is born from three neighbors it can only see across the edges
    assert_eq!(e.grid.get(9, 9), CellState::On);
    // far from the edges nothing happens
    assert_eq!(e.grid.get(5, 5), CellState::Off);
    assert_eq!(e.grid.get(4, 6), CellState::Off);
}

#[test]
fn elementary_rule_90_draws_a_sierpinski_triangle() {
    let mut e = new_engine(15, 8, 0, AutomatonKind::Elementary(90));
    // the initial field holds a single live cell in the center of row zero
    for c in 0..15 {
        let expected = if c == 7 {
            CellState::On
        } else {
            CellState::Off
        };
        assert_eq!(e.grid.get(0, c), expected);
    }
    for _ in 0..7 {
        e.step();
    }
    assert_eq!(e.generation(), 7);
    let expected_rows: [&[usize]; 8] = [
        &[7],
        &[6, 8],
        &[5, 9],
        &[4, 6, 8, 10],
        &[3, 11],
        &[2, 4, 10, 12],
        &[1, 5, 9, 13],
        &[0, 2, 4, 6, 8, 10, 12, 14],
    ];
    for (r, live) in expected_rows.iter().enumerate() {
        for c in 0..15 {
            let expected = if live.contains(&c) {
                CellState::On
            } else {
                CellState::Off
            };
            assert_eq!(e.grid.get(r, c), expected, "row {r}, column {c}");
        }
    }
}

#[test]
fn render_fills_the_buffer_with_cell_colors() {
    let mut e = new_engine(4, 3, 0, AutomatonKind::GameOfLife);
    e.clear();
    e.grid.set(0, 0, CellState::On);
    let mut buffer = vec![0u8; 48];
    assert_eq!(e.render_into(&mut buffer), Ok(()));
    assert_eq!(buffer.len(), 48);
    assert_eq!(&buffer[0..4], &[0xff, 0xff, 0xff, 0xff]);
    for cell in 1..12 {
        assert_eq!(&buffer[4 * cell..4 * cell + 4], &[0x59, 0x57, 0x52, 0xff]);
    }
}

#[test]
fn render_refuses_a_short_buffer_and_leaves_everything_alone() {
    let mut e = new_engine(4, 3, 0, AutomatonKind::GameOfLife);
    e.clear();
    e.grid.set(0, 0, CellState::On);
    let before = snapshot(&e);
    let mut buffer = vec![7u8; 47];
    assert_eq!(e.render_into(&mut buffer), Err(EngineError::BufferSizeMismatch));
    assert_eq!(buffer, vec![7u8; 47]);
    assert_eq!(snapshot(&e), before);
    let mut long = vec![7u8; 49];
    assert_eq!(e.render_into(&mut long), Err(EngineError::BufferSizeMismatch));
    assert_eq!(long, vec![7u8; 49]);
}

#[test]
fn reseed_is_deterministic_and_sparse() {
    let mut a = new_engine(32, 32, 5, AutomatonKind::MooreBinary);
    let mut b = new_engine(32, 32, 6, AutomatonKind::MooreBinary);
    a.reseed(99);
    b.reseed(99);
    assert_eq!(snapshot(&a), snapshot(&b));
    let (on, off) = a.grid.distribution();
    assert_eq!(on + off, 1024);
    // the fill density is 0.1, so about 102 of 1024 cells are live
    assert!(on > 20, "far too few live cells: {on}");
    assert!(on < 300, "far too many live cells: {on}");
}

#[test]
fn randomize_at_half_density_fills_about_half() {
    let mut e = new_engine(32, 32, 5, AutomatonKind::MooreBinary);
    e.randomize(3, HALF_THRESHOLD);
    let (on, off) = e.grid.distribution();
    assert_eq!(on + off, 1024);
    assert!(on > 300, "far too few live cells: {on}");
    assert!(on < 724, "far too many live cells: {on}");
    // the same seed gives the same fill again
    let mut f = new_engine(32, 32, 9, AutomatonKind::MooreBinary);
    f.randomize(3, HALF_THRESHOLD);
    assert_eq!(snapshot(&e), snapshot(&f));
}

#[test]
fn clear_turns_every_cell_off() {
    let mut e = new_engine(16, 16, 1, AutomatonKind::MooreBinary);
    e.randomize(8, HALF_THRESHOLD);
    e.clear();
    let (on, off) = e.grid.distribution();
    assert_eq!(on, 0);
    assert_eq!(off, 256);
}

#[test]
fn moore_steps_are_deterministic_for_a_seed() {
    let mut a = new_engine(16, 16, 11, AutomatonKind::MooreBinary);
    let mut b = new_engine(16, 16, 11, AutomatonKind::MooreBinary);
    for _ in 0..5 {
        a.step();
        b.step();
    }
    assert_eq!(snapshot(&a), snapshot(&b));
    assert_eq!(a.generation(), 5);
}

#[test]
fn new_engine_seeds_only_the_first_row() {
    let e = new_engine(16, 8, 4, AutomatonKind::GameOfLife);
    for r in 1..8 {
        for c in 0..16 {
            assert_eq!(e.grid.get(r, c), CellState::Off);
        }
    }
    let f = new_engine(16, 8, 4, AutomatonKind::GameOfLife);
    assert_eq!(snapshot(&e), snapshot(&f));
}

#[test]
fn distribution_counts_live_and_dead_cells() {
    let mut e = new_engine(6, 5, 0, AutomatonKind::GameOfLife);
    e.clear();
    e.grid.set(1, 1, CellState::On);
    e.grid.set(2, 3, CellState::On);
    e.grid.set(4, 5, CellState::On);
    let (on, off) = e.grid.distribution();
    assert_eq!(on, 3);
    assert_eq!(off, 27);
}
