use automaton_engine::cell::{CellState, RuleState};
use automaton_engine::rules::RuleTable;

#[test]
fn random_table_is_total() {
    let t = RuleTable::build_random(7);
    for v in 0u32..512 {
        let out = t.lookup(RuleState(v));
        assert!(out == CellState::On || out == CellState::Off);
    }
    // an index past the table falls back to the default
    assert_eq!(t.lookup(RuleState(512)), CellState::Off);
    assert_eq!(t.lookup(RuleState(u32::MAX)), CellState::Off);
}

#[test]
fn same_seed_gives_identical_tables() {
    let a = RuleTable::build_random(42);
    let b = RuleTable::build_random(42);
    for v in 0u32..512 {
        assert_eq!(a.lookup(RuleState(v)), b.lookup(RuleState(v)));
    }
}

#[test]
fn different_seeds_give_different_tables() {
    let a = RuleTable::build_random(1);
    let b = RuleTable::build_random(2);
    let mut differs = false;
    for v in 0u32..512 {
        if a.lookup(RuleState(v)) != b.lookup(RuleState(v)) {
            differs = true;
        }
    }
    assert!(differs);
}

#[test]
fn random_table_density_is_sparse() {
    let t = RuleTable::build_random(3);
    let mut on = 0;
    for v in 0u32..512 {
        if t.lookup(RuleState(v)) == CellState::On {
            on += 1;
        }
    }
    // the expected count at probability 0.1 is about 51 of 512
    assert!(on > 10, "far too few live outputs: {on}");
    assert!(on < 150, "far too many live outputs: {on}");
}

#[test]
fn life_table_follows_conways_rule() {
    let t = RuleTable::build_life();
    let center = 1u32 << 4;
    // a live cell with two or three live neighbors survives
    assert_eq!(t.lookup(RuleState(center | 1 | 2)), CellState::On);
    assert_eq!(t.lookup(RuleState(center | 1 | 2 | 8)), CellState::On);
    // a live cell starves with one neighbor and chokes with four
    assert_eq!(t.lookup(RuleState(center | 1)), CellState::Off);
    assert_eq!(t.lookup(RuleState(center | 1 | 2 | 8 | 32)), CellState::Off);
    // a dead cell with exactly three live neighbors is born
    assert_eq!(t.lookup(RuleState(1 | 2 | 8)), CellState::On);
    assert_eq!(t.lookup(RuleState(1 | 2)), CellState::Off);
    assert_eq!(t.lookup(RuleState(1 | 2 | 8 | 32)), CellState::Off);
}

#[test]
fn elementary_table_unpacks_rule_bits() {
    let rule = 90u8;
    let t = RuleTable::build_elementary(rule);
    for triple in 0u32..8 {
        let expected = if (rule >> triple) & 1 == 1 {
            CellState::On
        } else {
            CellState::Off
        };
        assert_eq!(t.lookup(RuleState(triple)), expected);
    }
    // entries past the eight triples stay dead
    for v in 8u32..512 {
        assert_eq!(t.lookup(RuleState(v)), CellState::Off);
    }
}
