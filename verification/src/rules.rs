use vstd::prelude::*;

use crate::cell::{CellState, RuleState};
use crate::codec::TABLE_SIZE;
use crate::rng::{chacha_word, chacha_words};

verus! {

/// A cell drawn from a random word is set to `On` when the word falls below
/// this bound; the bound is one tenth of the 32-bit range, so the probability
/// of `On` is 0.1.
pub const SPARSE_THRESHOLD: u32 = 429496730;

/// Half of the 32-bit range: the probability of `On` is 0.5.
pub const HALF_THRESHOLD: u32 = 2147483648;

/// The cell that a seeded random draw at position `i` yields under a given
/// threshold.
pub open spec fn random_cell(seed: u64, i: int, threshold: u32) -> CellState {
    if chacha_word(seed, i as nat) < threshold {
        CellState::On
    } else {
        CellState::Off
    }
}

/// The rule table that a seed generates: one sparse random draw for each of
/// the 512 neighborhood indices. A function of the seed alone.
pub open spec fn random_table(seed: u64) -> Seq<CellState> {
    Seq::new(TABLE_SIZE as nat, |i: int| random_cell(seed, i, SPARSE_THRESHOLD))
}

/// Bit `k` of a neighborhood index.
pub open spec fn idx_bit(v: u32, k: u32) -> u32 {
    (v >> k) & 1
}

/// How many of the eight surrounding cells of an encoded neighborhood are
/// live; bit 4 is the center and is not counted.
pub open spec fn live_neighbors(v: u32) -> int {
    idx_bit(v, 0) + idx_bit(v, 1) + idx_bit(v, 2) + idx_bit(v, 3) + idx_bit(v, 5) + idx_bit(v, 6)
        + idx_bit(v, 7) + idx_bit(v, 8)
}

/// Conway's rule for one encoded neighborhood: a live center survives with
/// two or three live neighbors, a dead center comes alive with exactly three.
pub open spec fn life_rule(v: u32) -> CellState {
    if idx_bit(v, 4) == 1 {
        if live_neighbors(v) == 2 || live_neighbors(v) == 3 {
            CellState::On
        } else {
            CellState::Off
        }
    } else {
        if live_neighbors(v) == 3 {
            CellState::On
        } else {
            CellState::Off
        }
    }
}

/// The full Game-of-Life rule table.
pub open spec fn life_table() -> Seq<CellState> {
    Seq::new(TABLE_SIZE as nat, |i: int| life_rule(i as u32))
}

/// The output of an elementary rule number for a three-cell index `t`, with
/// bit 0 of `t` the left neighbor, bit 1 the center and bit 2 the right one:
/// bit `t` of the rule number. Entries past the eight triples stay `Off`, the
/// default for a neighborhood no rule defines.
pub open spec fn elementary_rule(rule: u8, t: int) -> CellState {
    if 0 <= t < 8 && (rule >> (t as u8)) & 1 == 1 {
        CellState::On
    } else {
        CellState::Off
    }
}

/// The table of an elementary rule number, padded to the full table size.
pub open spec fn elementary_table(rule: u8) -> Seq<CellState> {
    Seq::new(TABLE_SIZE as nat, |t: int| elementary_rule(rule, t))
}

/// What a table lookup yields: the entry when the index is in range, and
/// `Off` for an index the table does not define.
pub open spec fn table_lookup(t: Seq<CellState>, i: int) -> CellState {
    if 0 <= i < t.len() {
        t[i]
    } else {
        CellState::Off
    }
}

/// A total mapping from every encoded neighborhood to an output cell.
pub struct RuleTable {
    pub entries: Vec<CellState>,
}

impl View for RuleTable {
    type V = Seq<CellState>;

    open spec fn view(&self) -> Seq<CellState> {
        self.entries@
    }
}

impl RuleTable {
    /// A table is well formed when it defines every neighborhood index.
    pub open spec fn wf(&self) -> bool {
        self@.len() == TABLE_SIZE
    }

    /// Look an index up; an index outside the table yields `Off` rather than
    /// failing.
    pub fn lookup(&self, index: RuleState) -> (r: CellState)
        ensures
            r == table_lookup(self@, index.0 as int),
    {
        let i = index.0 as usize;
        if i < self.entries.len() {
            self.entries[i]
        } else {
            CellState::Off
        }
    }

    /// Deterministically derive a full rule table from a seed: for each of
    /// the 512 neighborhood indices one seeded draw, `On` with probability
    /// 0.1. The same seed always gives the same table.
    pub fn build_random(seed: u64) -> (r: RuleTable)
        ensures
            r.wf(),
            r@ == random_table(seed),
    {
        let words = chacha_words(seed, TABLE_SIZE);
        let mut entries: Vec<CellState> = Vec::new();
        let mut i: usize = 0;
        while i < TABLE_SIZE
            invariant
                i <= TABLE_SIZE,
                words@.len() == TABLE_SIZE,
                forall|j: int| 0 <= j < TABLE_SIZE ==> words@[j] == chacha_word(seed, j as nat),
                entries@.len() == i,
                forall|j: int| 0 <= j < i ==> entries@[j] == random_table(seed)[j],
            decreases TABLE_SIZE - i,
        {
            let cell = if words[i] < SPARSE_THRESHOLD {
                CellState::On
            } else {
                CellState::Off
            };
            entries.push(cell);
            i += 1;
        }
        let r = RuleTable { entries };
        assert(r@ =~= random_table(seed));
        r
    }

    /// The built-in Game-of-Life table.
    pub fn build_life() -> (r: RuleTable)
        ensures
            r.wf(),
            r@ == life_table(),
    {
        let mut entries: Vec<CellState> = Vec::new();
        let mut i: usize = 0;
        while i < TABLE_SIZE
            invariant
                i <= TABLE_SIZE,
                entries@.len() == i,
                forall|j: int| 0 <= j < i ==> entries@[j] == life_table()[j],
            decreases TABLE_SIZE - i,
        {
            let v = i as u32;
            assert((v >> 0) & 1 <= 1 && (v >> 1) & 1 <= 1 && (v >> 2) & 1 <= 1 && (v >> 3) & 1 <= 1
                && (v >> 4) & 1 <= 1 && (v >> 5) & 1 <= 1 && (v >> 6) & 1 <= 1 && (v >> 7) & 1 <= 1
                && (v >> 8) & 1 <= 1) by (bit_vector);
            let count = ((v >> 0) & 1) + ((v >> 1) & 1) + ((v >> 2) & 1) + ((v >> 3) & 1) + ((v
                >> 5) & 1) + ((v >> 6) & 1) + ((v >> 7) & 1) + ((v >> 8) & 1);
            let center = (v >> 4) & 1;
            let cell = if center == 1 {
                if count == 2 || count == 3 {
                    CellState::On
                } else {
                    CellState::Off
                }
            } else {
                if count == 3 {
                    CellState::On
                } else {
                    CellState::Off
                }
            };
            entries.push(cell);
            i += 1;
        }
        let r = RuleTable { entries };
        assert(r@ =~= life_table());
        r
    }

    /// The table of one elementary rule number: the eight three-cell indices
    /// take the rule number's bits, every other entry stays `Off`.
    pub fn build_elementary(rule: u8) -> (r: RuleTable)
        ensures
            r.wf(),
            r@ == elementary_table(rule),
    {
        let mut entries: Vec<CellState> = Vec::new();
        let mut i: usize = 0;
        while i < TABLE_SIZE
            invariant
                i <= TABLE_SIZE,
                entries@.len() == i,
                forall|j: int| 0 <= j < i ==> entries@[j] == elementary_table(rule)[j],
            decreases TABLE_SIZE - i,
        {
            let cell = if i < 8 && (rule >> (i as u8)) & 1 == 1 {
                CellState::On
            } else {
                CellState::Off
            };
            entries.push(cell);
            i += 1;
        }
        let r = RuleTable { entries };
        assert(r@ =~= elementary_table(rule));
        r
    }
}

} // verus!
