use vstd::prelude::*;

use crate::cell::{CellState, InputState};
use crate::codec::{encode, encode3, spec_encode, spec_encode3, spec_encode9};
use crate::grid::{lemma_row_major_index, Grid};
use crate::rng::chacha_words;
use crate::rules::{
    random_cell, random_table, table_lookup, elementary_table, life_table, RuleTable,
    HALF_THRESHOLD, SPARSE_THRESHOLD,
};
use vstd::arithmetic::div_mod::{
    lemma_fundamental_div_mod, lemma_fundamental_div_mod_converse, lemma_mod_bound,
};

verus! {

/// Which automaton an engine runs: the two-dimensional automaton with a
/// seeded random rule table, the two-dimensional Game of Life, or a
/// one-directional elementary automaton given by its rule number.
#[derive(Copy, Clone, Debug, PartialEq, Eq, Structural)]
pub enum AutomatonKind {
    MooreBinary,
    GameOfLife,
    Elementary(u8),
}

/// The one way the engine can fail: a render buffer of the wrong length.
#[derive(Copy, Clone, Debug, PartialEq, Eq, Structural)]
pub enum EngineError {
    BufferSizeMismatch,
}

/// One step towards the start of an axis, wrapping to the far edge at zero.
pub open spec fn wrap_dec(i: int, n: int) -> int {
    if i == 0 {
        n - 1
    } else {
        i - 1
    }
}

/// One step towards the end of an axis, wrapping to zero at the far edge.
pub open spec fn wrap_inc(i: int, n: int) -> int {
    if i == n - 1 {
        0
    } else {
        i + 1
    }
}

/// The encoded Moore neighborhood of the cell at row `r`, column `c` of a
/// row-major field, with both axes wrapping toroidally.
pub open spec fn neigh_index(g: Seq<CellState>, w: int, h: int, r: int, c: int) -> u32 {
    let up = wrap_dec(r, h);
    let down = wrap_inc(r, h);
    let lf = wrap_dec(c, w);
    let rt = wrap_inc(c, w);
    spec_encode9(
        g[up * w + lf],
        g[up * w + c],
        g[up * w + rt],
        g[r * w + lf],
        g[r * w + c],
        g[r * w + rt],
        g[down * w + lf],
        g[down * w + c],
        g[down * w + rt],
    )
}

/// One full generation of a two-dimensional automaton: every cell is replaced
/// by the table's output for its own encoded neighborhood, all read from the
/// old field.
pub open spec fn stepped(g: Seq<CellState>, w: int, h: int, t: Seq<CellState>) -> Seq<CellState> {
    Seq::new((w * h) as nat, |k: int| table_lookup(t, neigh_index(g, w, h, k / w, k % w) as int))
}

/// The encoded three-cell neighborhood of row `r`, column `c`: left, center
/// and right cell of that row, the columns wrapping toroidally.
pub open spec fn elem_index(g: Seq<CellState>, w: int, r: int, c: int) -> u32 {
    spec_encode3(g[r * w + wrap_dec(c, w)], g[r * w + c], g[r * w + wrap_inc(c, w)])
}

/// One step of the one-directional elementary automaton: the row under the
/// cursor row is rewritten from the cursor row's three-cell neighborhoods,
/// and every other row keeps its cells, so the field accumulates a history
/// of generations.
pub open spec fn elem_stepped(
    g: Seq<CellState>,
    w: int,
    h: int,
    t: Seq<CellState>,
    cur: int,
) -> Seq<CellState> {
    let nr = wrap_inc(cur, h);
    Seq::new(
        g.len(),
        |i: int|
            if nr * w <= i < nr * w + w {
                table_lookup(t, elem_index(g, w, cur, i - nr * w) as int)
            } else {
                g[i]
            },
    )
}

/// The rule table an engine starts from: seeded random for the random
/// automaton, the fixed tables for the deterministic ones.
pub open spec fn table_for(kind: AutomatonKind, seed: u64) -> Seq<CellState> {
    match kind {
        AutomatonKind::MooreBinary => random_table(seed),
        AutomatonKind::GameOfLife => life_table(),
        AutomatonKind::Elementary(rule) => elementary_table(rule),
    }
}

/// The field an engine starts from: everything `Off`, except that row zero
/// holds a single live center cell for the elementary automaton and seeded
/// fair coin flips for the two-dimensional ones.
pub open spec fn initial_cells(kind: AutomatonKind, w: int, h: int, seed: u64) -> Seq<CellState> {
    Seq::new(
        (w * h) as nat,
        |i: int|
            if i < w {
                match kind {
                    AutomatonKind::Elementary(_) => if i == w / 2 {
                        CellState::On
                    } else {
                        CellState::Off
                    },
                    _ => random_cell(seed, i, HALF_THRESHOLD),
                }
            } else {
                CellState::Off
            },
    )
}

/// One fixed color per cell state, four bytes each: `On` is opaque white and
/// `Off` an opaque dark gray.
pub open spec fn color_byte(s: CellState, k: int) -> u8 {
    match s {
        CellState::On => 0xff,
        CellState::Off => if k == 0 {
            0x59
        } else if k == 1 {
            0x57
        } else if k == 2 {
            0x52
        } else {
            0xff
        },
    }
}

/// A field rasterized row-major, four bytes per cell.
pub open spec fn rendered(g: Seq<CellState>) -> Seq<u8> {
    Seq::new((g.len() * 4) as nat, |j: int| color_byte(g[j / 4], j % 4))
}

/// A flat index below `w * h` names the row `k / w` and the column `k % w`.
proof fn lemma_row_col(k: int, w: int, h: int)
    requires
        0 <= k,
        1 <= w,
        1 <= h,
        k < w * h,
    ensures
        0 <= k / w < h,
        0 <= k % w < w,
{
    lemma_fundamental_div_mod(k, w);
    lemma_mod_bound(k, w);
    let q = k / w;
    let r = k % w;
    assert(0 <= q < h) by (nonlinear_arith)
        requires
            1 <= w,
            0 <= k,
            k < w * h,
            k == w * q + r,
            0 <= r < w,
    ;
}

/// Gather and encode the Moore neighborhood of an in-range cell.
#[verifier::rlimit(50)]
fn gather(g: &Grid, row: usize, col: usize) -> (v: u32)
    requires
        g.wf(),
        row < g.height,
        col < g.width,
    ensures
        v == neigh_index(g.cells@, g.width as int, g.height as int, row as int, col as int),
        v < 512,
{
    let up = if row == 0 {
        g.height - 1
    } else {
        row - 1
    };
    let down = if row == g.height - 1 {
        0
    } else {
        row + 1
    };
    let lf = if col == 0 {
        g.width - 1
    } else {
        col - 1
    };
    let rt = if col == g.width - 1 {
        0
    } else {
        col + 1
    };
    proof {
        assert(up as int == wrap_dec(row as int, g.height as int));
        assert(down as int == wrap_inc(row as int, g.height as int));
        assert(lf as int == wrap_dec(col as int, g.width as int));
        assert(rt as int == wrap_inc(col as int, g.width as int));
    }
    let x = InputState(
        [
            g.at(up, lf),
            g.at(up, col),
            g.at(up, rt),
            g.at(row, lf),
            g.at(row, col),
            g.at(row, rt),
            g.at(down, lf),
            g.at(down, col),
            g.at(down, rt),
        ],
    );
    let idx = encode(&x);
    proof {
        assert(spec_encode(x) == neigh_index(
            g.cells@,
            g.width as int,
            g.height as int,
            row as int,
            col as int,
        ));
    }
    idx.0
}

/// Compute the next field of a two-dimensional automaton into a fresh buffer.
fn compute_step(g: &Grid, table: &RuleTable) -> (next: Vec<CellState>)
    requires
        g.wf(),
        table.wf(),
    ensures
        next@ == stepped(g.cells@, g.width as int, g.height as int, table@),
{
    let w = g.width;
    let h = g.height;
    let n = w * h;
    let mut next: Vec<CellState> = Vec::new();
    let mut k: usize = 0;
    while k < n
        invariant
            g.wf(),
            table.wf(),
            w == g.width,
            h == g.height,
            n == w * h,
            k <= n,
            next@.len() == k,
            forall|j: int|
                0 <= j < k ==> next@[j] == stepped(
                    g.cells@,
                    w as int,
                    h as int,
                    table@,
                )[j],
        decreases n - k,
    {
        proof {
            lemma_row_col(k as int, w as int, h as int);
        }
        let row = k / w;
        let col = k % w;
        let v = gather(g, row, col);
        let out = table.lookup(crate::cell::RuleState(v));
        next.push(out);
        k += 1;
    }
    assert(next@ =~= stepped(g.cells@, g.width as int, g.height as int, table@));
    next
}

/// Compute the field after one elementary step into a fresh buffer: the row
/// under `cur` is rewritten from row `cur`, the rest is copied.
fn compute_elem_step(g: &Grid, table: &RuleTable, cur: usize) -> (next: Vec<CellState>)
    requires
        g.wf(),
        table.wf(),
        cur < g.height,
    ensures
        next@ == elem_stepped(
            g.cells@,
            g.width as int,
            g.height as int,
            table@,
            cur as int,
        ),
{
    let w = g.width;
    let h = g.height;
    let n = w * h;
    let nr = if cur == h - 1 {
        0
    } else {
        cur + 1
    };
    proof {
        lemma_row_major_index(w as int, h as int, nr as int, 0);
        assert((nr as int) * w + w <= w * h) by (nonlinear_arith)
            requires
                0 <= (nr as int) < h,
                1 <= w,
        ;
    }
    let start = nr * w;
    let mut next: Vec<CellState> = Vec::new();
    let mut i: usize = 0;
    while i < n
        invariant
            g.wf(),
            table.wf(),
            w == g.width,
            h == g.height,
            n == w * h,
            cur < h,
            nr == wrap_inc(cur as int, h as int),
            start == nr * w,
            start + w <= n,
            i <= n,
            next@.len() == i,
            forall|j: int|
                0 <= j < i ==> next@[j] == elem_stepped(
                    g.cells@,
                    w as int,
                    h as int,
                    table@,
                    cur as int,
                )[j],
        decreases n - i,
    {
        let cell = if start <= i && i < start + w {
            let col = i - start;
            let lf = if col == 0 {
                w - 1
            } else {
                col - 1
            };
            let rt = if col == w - 1 {
                0
            } else {
                col + 1
            };
            let v = encode3(g.at(cur, lf), g.at(cur, col), g.at(cur, rt));
            table.lookup(crate::cell::RuleState(v))
        } else {
            flat_cell(g, i)
        };
        next.push(cell);
        i += 1;
    }
    assert(next@ =~= elem_stepped(g.cells@, g.width as int, g.height as int, table@, cur as int));
    next
}

/// Read one cell of the field by its flat index.
fn flat_cell(g: &Grid, i: usize) -> (r: CellState)
    requires
        g.wf(),
        i < g.cells@.len(),
    ensures
        r == g.cells@[i as int],
{
    g.cells[i]
}

/// The whole automaton: the field, the rule table that drives it, the kind
/// it was built for, the generation counter, and the cursor row that the
/// elementary automaton advances from.
pub struct Engine {
    pub grid: Grid,
    pub table: RuleTable,
    pub kind: AutomatonKind,
    pub generation: u64,
    pub cursor: usize,
}

/// Build an engine: the rule table for the kind, and the initial field.
pub fn new_engine(width: u32, height: u32, seed: u64, kind: AutomatonKind) -> (e: Engine)
    requires
        1 <= width,
        1 <= height,
        4 * ((width as int) * (height as int)) <= usize::MAX,
    ensures
        e.wf(),
        e.kind == kind,
        e.generation == 0,
        e.cursor == 0,
        e.grid.width == width,
        e.grid.height == height,
        e.table@ == table_for(kind, seed),
        e.grid.cells@ == initial_cells(kind, width as int, height as int, seed),
{
    let w = width as usize;
    let h = height as usize;
    let n = w * h;
    let table = match kind {
        AutomatonKind::MooreBinary => RuleTable::build_random(seed),
        AutomatonKind::GameOfLife => RuleTable::build_life(),
        AutomatonKind::Elementary(rule) => RuleTable::build_elementary(rule),
    };
    let words = chacha_words(seed, w);
    let mut cells: Vec<CellState> = Vec::new();
    let mut i: usize = 0;
    while i < n
        invariant
            n == w * h,
            1 <= w,
            1 <= h,
            words@.len() == w,
            forall|j: int| 0 <= j < w ==> words@[j] == crate::rng::chacha_word(seed, j as nat),
            i <= n,
            cells@.len() == i,
            forall|j: int|
                0 <= j < i ==> cells@[j] == initial_cells(kind, w as int, h as int, seed)[j],
        decreases n - i,
    {
        let cell = if i < w {
            match kind {
                AutomatonKind::Elementary(_) => if i == w / 2 {
                    CellState::On
                } else {
                    CellState::Off
                },
                _ => if words[i] < HALF_THRESHOLD {
                    CellState::On
                } else {
                    CellState::Off
                },
            }
        } else {
            CellState::Off
        };
        cells.push(cell);
        i += 1;
    }
    let e = Engine { grid: Grid { width: w, height: h, cells }, table, kind, generation: 0, cursor: 0 };
    assert(e.grid.cells@ =~= initial_cells(kind, width as int, height as int, seed));
    e
}

impl Engine {
    /// The grid and the table are well formed and the cursor row exists.
    pub open spec fn wf(&self) -> bool {
        &&& self.grid.wf()
        &&& self.table.wf()
        &&& self.cursor < self.grid.height
    }

    /// Advance exactly one generation. The two-dimensional kinds rewrite the
    /// whole field from the old one; the elementary kind rewrites only the
    /// row under the cursor and moves the cursor down. The counter grows by
    /// exactly one either way.
    pub fn step(&mut self)
        requires
            old(self).wf(),
            old(self).generation < u64::MAX,
        ensures
            final(self).wf(),
            final(self).grid.width == old(self).grid.width,
            final(self).grid.height == old(self).grid.height,
            final(self).kind == old(self).kind,
            final(self).table == old(self).table,
            final(self).generation == old(self).generation + 1,
            (match old(self).kind {
                AutomatonKind::Elementary(_) => {
                    &&& final(self).grid.cells@ == elem_stepped(
                        old(self).grid.cells@,
                        old(self).grid.width as int,
                        old(self).grid.height as int,
                        old(self).table@,
                        old(self).cursor as int,
                    )
                    &&& final(self).cursor == wrap_inc(
                        old(self).cursor as int,
                        old(self).grid.height as int,
                    )
                },
                _ => {
                    &&& final(self).grid.cells@ == stepped(
                        old(self).grid.cells@,
                        old(self).grid.width as int,
                        old(self).grid.height as int,
                        old(self).table@,
                    )
                    &&& final(self).cursor == old(self).cursor
                },
            }),
    {
        match self.kind {
            AutomatonKind::Elementary(_) => {
                let next = compute_elem_step(&self.grid, &self.table, self.cursor);
                self.grid.cells = next;
                self.cursor = if self.cursor == self.grid.height - 1 {
                    0
                } else {
                    self.cursor + 1
                };
            },
            _ => {
                let next = compute_step(&self.grid, &self.table);
                self.grid.cells = next;
            },
        }
        self.generation = self.generation + 1;
    }

    /// The number of steps taken so far; zero on a fresh engine.
    pub fn generation(&self) -> (r: u64)
        ensures
            r == self.generation,
    {
        self.generation
    }

    /// Replace the rule table with the one the seed generates and refill the
    /// grid with sparse seeded draws, at one tenth density.
    pub fn reseed(&mut self, seed: u64)
        requires
            old(self).wf(),
        ensures
            final(self).wf(),
            final(self).grid.width == old(self).grid.width,
            final(self).grid.height == old(self).grid.height,
            final(self).kind == old(self).kind,
            final(self).generation == old(self).generation,
            final(self).cursor == old(self).cursor,
            final(self).table@ == random_table(seed),
            final(self).grid.cells@.len() == old(self).grid.cells@.len(),
            forall|i: int|
                0 <= i < old(self).grid.cells@.len() ==> final(self).grid.cells@[i] == random_cell(
                    seed,
                    i,
                    SPARSE_THRESHOLD,
                ),
    {
        self.table = RuleTable::build_random(seed);
        self.grid.randomize(seed, SPARSE_THRESHOLD);
    }

    /// Set every cell to `Off`; rules, counter and cursor stay.
    pub fn clear(&mut self)
        requires
            old(self).wf(),
        ensures
            final(self).wf(),
            final(self).grid.width == old(self).grid.width,
            final(self).grid.height == old(self).grid.height,
            final(self).kind == old(self).kind,
            final(self).table == old(self).table,
            final(self).generation == old(self).generation,
            final(self).cursor == old(self).cursor,
            forall|i: int|
                0 <= i < old(self).grid.cells@.len() ==> final(self).grid.cells@[i]
                    == CellState::Off,
    {
        self.grid.clear();
    }

    /// Refill the grid with independent seeded draws: each cell `On` exactly
    /// when its word falls below the threshold, so a threshold of half the
    /// 32-bit range gives a fair fill.
    pub fn randomize(&mut self, seed: u64, threshold: u32)
        requires
            old(self).wf(),
        ensures
            final(self).wf(),
            final(self).grid.width == old(self).grid.width,
            final(self).grid.height == old(self).grid.height,
            final(self).kind == old(self).kind,
            final(self).table == old(self).table,
            final(self).generation == old(self).generation,
            final(self).cursor == old(self).cursor,
            forall|i: int|
                0 <= i < old(self).grid.cells@.len() ==> final(self).grid.cells@[i] == random_cell(
                    seed,
                    i,
                    threshold,
                ),
    {
        self.grid.randomize(seed, threshold);
    }

    /// Rasterize the field into a caller-supplied buffer, four bytes per
    /// cell, row-major. A buffer whose length is not exactly four bytes per
    /// cell is refused untouched, and the grid is never changed.
    pub fn render_into(&self, buffer: &mut Vec<u8>) -> (res: Result<(), EngineError>)
        requires
            self.wf(),
        ensures
            (match res {
                Ok(_) => {
                    &&& old(buffer)@.len() == 4 * (self.grid.width * self.grid.height)
                    &&& final(buffer)@ == rendered(self.grid.cells@)
                },
                Err(e) => {
                    &&& e == EngineError::BufferSizeMismatch
                    &&& old(buffer)@.len() != 4 * (self.grid.width * self.grid.height)
                    &&& final(buffer)@ == old(buffer)@
                },
            }),
            res is Ok <==> old(buffer)@.len() == 4 * (self.grid.width * self.grid.height),
    {
        let n = self.grid.width * self.grid.height;
        let expected = 4 * n;
        if buffer.len() != expected {
            return Err(EngineError::BufferSizeMismatch);
        }
        let mut out: Vec<u8> = Vec::new();
        let mut i: usize = 0;
        while i < n
            invariant
                self.wf(),
                n == self.grid.width * self.grid.height,
                i <= n,
                out@.len() == 4 * i,
                forall|j: int| 0 <= j < 4 * i ==> out@[j] == rendered(self.grid.cells@)[j],
            decreases n - i,
        {
            let c = flat_cell(&self.grid, i);
            let (b0, b1, b2, b3) = match c {
                CellState::On => (0xffu8, 0xffu8, 0xffu8, 0xffu8),
                CellState::Off => (0x59u8, 0x57u8, 0x52u8, 0xffu8),
            };
            out.push(b0);
            out.push(b1);
            out.push(b2);
            out.push(b3);
            proof {
                lemma_fundamental_div_mod_converse(4 * i, 4, i as int, 0);
                lemma_fundamental_div_mod_converse(4 * i + 1, 4, i as int, 1);
                lemma_fundamental_div_mod_converse(4 * i + 2, 4, i as int, 2);
                lemma_fundamental_div_mod_converse(4 * i + 3, 4, i as int, 3);
            }
            i += 1;
        }
        assert(out@ =~= rendered(self.grid.cells@));
        *buffer = out;
        Ok(())
    }
}

/// The field with only the top-left cell live.
pub open spec fn corner_only(w: int, h: int) -> Seq<CellState> {
    Seq::new((w * h) as nat, |i: int| if i == 0 {
        CellState::On
    } else {
        CellState::Off
    })
}

/// Toroidal wraparound reaches across both edges: with only the top-left
/// cell live, the bottom-right corner's encoded neighborhood carries exactly
/// bit 8 — that cell is its lower-right neighbor, across both axes — so a
/// step of the bottom-right corner is driven by the opposite corner.
pub proof fn lemma_corner_wraparound(w: int, h: int)
    requires
        3 <= w,
        3 <= h,
    ensures
        neigh_index(corner_only(w, h), w, h, h - 1, w - 1) == 256,
{
    let g = corner_only(w, h);
    let up = h - 2;
    let lf = w - 2;
    assert(wrap_dec(h - 1, h) == h - 2);
    assert(wrap_inc(h - 1, h) == 0);
    assert(wrap_dec(w - 1, w) == w - 2);
    assert(wrap_inc(w - 1, w) == 0);
    lemma_row_major_index(w, h, up, lf);
    lemma_row_major_index(w, h, up, w - 1);
    lemma_row_major_index(w, h, up, 0);
    lemma_row_major_index(w, h, h - 1, lf);
    lemma_row_major_index(w, h, h - 1, w - 1);
    lemma_row_major_index(w, h, h - 1, 0);
    assert(up * w >= w) by (nonlinear_arith)
        requires
            up >= 1,
            w >= 0,
    ;
    assert((h - 1) * w >= w) by (nonlinear_arith)
        requires
            h - 1 >= 1,
            w >= 0,
    ;
    assert(g[up * w + lf] == CellState::Off);
    assert(g[up * w + (w - 1)] == CellState::Off);
    assert(g[up * w + 0] == CellState::Off);
    assert(g[(h - 1) * w + lf] == CellState::Off);
    assert(g[(h - 1) * w + (w - 1)] == CellState::Off);
    assert(g[(h - 1) * w + 0] == CellState::Off);
    assert(g[0 * w + lf] == CellState::Off);
    assert(g[0 * w + (w - 1)] == CellState::Off);
    assert(g[0 * w + 0] == CellState::On);
    assert(0u32 | (0u32 << 1) | (0u32 << 2) | (0u32 << 3) | (0u32 << 4) | (0u32 << 5) | (0u32 << 6)
        | (0u32 << 7) | (1u32 << 8) == 256) by (bit_vector);
}

/// The same wraparound effect seen through the step function: whatever the
/// table, one step of the field with only the top-left cell live gives the
/// bottom-right corner the table's output for the neighborhood whose only
/// live cell is its lower-right neighbor.
pub proof fn lemma_corner_wraparound_step(w: int, h: int, t: Seq<CellState>)
    requires
        3 <= w,
        3 <= h,
    ensures
        stepped(corner_only(w, h), w, h, t)[w * h - 1] == table_lookup(t, 256),
{
    lemma_corner_wraparound(w, h);
    assert((h - 1) * w + (w - 1) == w * h - 1) by (nonlinear_arith);
    lemma_fundamental_div_mod_converse(w * h - 1, w, h - 1, w - 1);
}

} // verus!
