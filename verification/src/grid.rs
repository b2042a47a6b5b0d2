use vstd::prelude::*;

use crate::cell::CellState;
use crate::rng::chacha_words;
use crate::rules::random_cell;

verus! {

/// A row-major index stays inside a `height * width` buffer.
pub proof fn lemma_row_major_index(w: int, h: int, r: int, c: int)
    requires
        0 <= r < h,
        0 <= c < w,
    ensures
        0 <= r * w + c < w * h,
{
    assert(r * w + c < w * h) by (nonlinear_arith)
        requires
            0 <= r < h,
            0 <= c < w,
    ;
    assert(r * w >= 0) by (nonlinear_arith)
        requires
            r >= 0,
            w >= 0,
    ;
}

/// How many cells of a sequence are `On`.
pub open spec fn count_on(s: Seq<CellState>) -> int
    decreases s.len(),
{
    if s.len() == 0 {
        0
    } else {
        count_on(s.drop_last()) + if s.last() is On {
            1int
        } else {
            0int
        }
    }
}

/// A fixed-size toroidal field of cells, row-major: the cell at row `r` and
/// column `c` sits at index `r * width + c`, and coordinates wrap modulo the
/// grid's dimensions on both axes.
pub struct Grid {
    pub width: usize,
    pub height: usize,
    pub cells: Vec<CellState>,
}

impl Grid {
    /// Dimensions are positive and fixed, the buffer covers them exactly,
    /// and four bytes per cell stay addressable for rendering.
    pub open spec fn wf(&self) -> bool {
        &&& 1 <= self.width
        &&& 1 <= self.height
        &&& self.cells@.len() == self.width * self.height
        &&& 4 * (self.width * self.height) <= usize::MAX
    }

    /// The cell at an in-range row and column.
    pub open spec fn spec_cell(&self, r: int, c: int) -> CellState {
        self.cells@[r * self.width + c]
    }

    /// Allocate a grid with every cell `Off`.
    pub fn new(width: usize, height: usize) -> (g: Grid)
        requires
            1 <= width,
            1 <= height,
            4 * (width * height) <= usize::MAX,
        ensures
            g.wf(),
            g.width == width,
            g.height == height,
            forall|i: int| 0 <= i < width * height ==> g.cells@[i] == CellState::Off,
    {
        let n = width * height;
        let mut cells: Vec<CellState> = Vec::new();
        let mut i: usize = 0;
        while i < n
            invariant
                i <= n,
                cells@.len() == i,
                forall|j: int| 0 <= j < i ==> cells@[j] == CellState::Off,
            decreases n - i,
        {
            cells.push(CellState::Off);
            i += 1;
        }
        Grid { width, height, cells }
    }

    /// Read the cell at in-range coordinates, without wrapping.
    pub fn at(&self, row: usize, col: usize) -> (r: CellState)
        requires
            self.wf(),
            row < self.height,
            col < self.width,
        ensures
            r == self.spec_cell(row as int, col as int),
    {
        proof {
            lemma_row_major_index(
                self.width as int,
                self.height as int,
                row as int,
                col as int,
            );
        }
        let i = row * self.width + col;
        self.cells[i]
    }

    /// Read a cell with toroidal wraparound: the effective row is
    /// `row % height` and the effective column `col % width`.
    pub fn get(&self, row: usize, col: usize) -> (r: CellState)
        requires
            self.wf(),
        ensures
            r == self.spec_cell(
                (row as int) % (self.height as int),
                (col as int) % (self.width as int),
            ),
    {
        let wr = row % self.height;
        let wc = col % self.width;
        self.at(wr, wc)
    }

    /// Write a cell with toroidal wraparound.
    pub fn set(&mut self, row: usize, col: usize, state: CellState)
        requires
            old(self).wf(),
        ensures
            final(self).wf(),
            final(self).width == old(self).width,
            final(self).height == old(self).height,
            final(self).cells@ == old(self).cells@.update(
                ((row as int) % (old(self).height as int)) * old(self).width + (col as int) % (
                old(self).width as int),
                state,
            ),
    {
        let wr = row % self.height;
        let wc = col % self.width;
        proof {
            lemma_row_major_index(
                self.width as int,
                self.height as int,
                wr as int,
                wc as int,
            );
        }
        let i = wr * self.width + wc;
        self.cells[i] = state;
    }

    /// Set every cell to `Off`; the dimensions stay as they are.
    pub fn clear(&mut self)
        requires
            old(self).wf(),
        ensures
            final(self).wf(),
            final(self).width == old(self).width,
            final(self).height == old(self).height,
            forall|i: int|
                0 <= i < old(self).width * old(self).height ==> final(self).cells@[i]
                    == CellState::Off,
    {
        let n = self.width * self.height;
        let mut cells: Vec<CellState> = Vec::new();
        let mut i: usize = 0;
        while i < n
            invariant
                i <= n,
                cells@.len() == i,
                forall|j: int| 0 <= j < i ==> cells@[j] == CellState::Off,
            decreases n - i,
        {
            cells.push(CellState::Off);
            i += 1;
        }
        self.cells = cells;
    }

    /// Set every cell independently from a seeded draw: `On` exactly when its
    /// random word falls below the threshold, so the same seed and threshold
    /// always give the same field.
    pub fn randomize(&mut self, seed: u64, threshold: u32)
        requires
            old(self).wf(),
        ensures
            final(self).wf(),
            final(self).width == old(self).width,
            final(self).height == old(self).height,
            forall|i: int|
                0 <= i < old(self).width * old(self).height ==> final(self).cells@[i]
                    == random_cell(seed, i, threshold),
    {
        let n = self.width * self.height;
        let words = chacha_words(seed, n);
        let mut cells: Vec<CellState> = Vec::new();
        let mut i: usize = 0;
        while i < n
            invariant
                i <= n,
                words@.len() == n,
                forall|j: int| 0 <= j < n ==> words@[j] == crate::rng::chacha_word(seed, j as nat),
                cells@.len() == i,
                forall|j: int| 0 <= j < i ==> cells@[j] == random_cell(seed, j, threshold),
            decreases n - i,
        {
            let cell = if words[i] < threshold {
                CellState::On
            } else {
                CellState::Off
            };
            cells.push(cell);
            i += 1;
        }
        self.cells = cells;
    }

    /// Count the cells: how many are `On`, then how many are `Off`.
    pub fn distribution(&self) -> (r: (usize, usize))
        requires
            self.wf(),
        ensures
            r.0 == count_on(self.cells@),
            r.0 + r.1 == self.cells@.len(),
    {
        let n = self.width * self.height;
        let mut on: usize = 0;
        let mut i: usize = 0;
        while i < n
            invariant
                i <= n,
                n == self.cells@.len(),
                self.wf(),
                on <= i,
                on == count_on(self.cells@.subrange(0, i as int)),
            decreases n - i,
        {
            let here = self.cells[i];
            proof {
                let pre = self.cells@.subrange(0, i as int);
                let post = self.cells@.subrange(0, i + 1);
                assert(post.drop_last() =~= pre);
                assert(post.last() == self.cells@[i as int]);
            }
            if let CellState::On = here {
                on += 1;
            }
            i += 1;
        }
        proof {
            assert(self.cells@.subrange(0, n as int) =~= self.cells@);
        }
        (on, n - on)
    }
}

} // verus!
