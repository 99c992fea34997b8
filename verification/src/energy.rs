use vstd::prelude::*;

use crate::lattice::Lattice;
use crate::lattice::LatticeError;
use crate::spin::Spin;

verus! {

/// Column of the cell at `index` in creation order (`x` outer, `y` inner).
pub open spec fn coord_x(index: int, height: int) -> int {
    index / height
}

/// Row of the cell at `index` in creation order (`x` outer, `y` inner).
pub open spec fn coord_y(index: int, height: int) -> int {
    index % height
}

/// Absolute difference of two coordinates.
pub open spec fn dist(a: int, b: int) -> int {
    if a >= b {
        a - b
    } else {
        b - a
    }
}

/// The cells at `i` and `j` are orthogonal grid neighbors: their offset is
/// exactly 1 along exactly one axis. Edges truncate; there is no wraparound.
pub open spec fn adjacent(i: int, j: int, height: int) -> bool {
    let dx = dist(coord_x(i, height), coord_x(j, height));
    let dy = dist(coord_y(i, height), coord_y(j, height));
    (dx == 1 && dy == 0) || (dx == 0 && dy == 1)
}

/// Among the first `j` cells, how many are orthogonal neighbors of cell `i`
/// with the same state as cell `i`.
pub open spec fn cell_matches_upto(cells: Seq<Spin>, height: int, i: int, j: int) -> int
    decreases j,
{
    if j <= 0 {
        0
    } else {
        cell_matches_upto(cells, height, i, j - 1) + if adjacent(i, j - 1, height) && cells[i]
            == cells[j - 1] {
            1int
        } else {
            0int
        }
    }
}

/// How many cells are orthogonal neighbors of cell `i` with the same state.
pub open spec fn cell_matches(cells: Seq<Spin>, height: int, i: int) -> int {
    cell_matches_upto(cells, height, i, cells.len() as int)
}

/// Sum of `cell_matches` over the first `i` cells.
pub open spec fn total_matches_upto(cells: Seq<Spin>, height: int, i: int) -> int
    decreases i,
{
    if i <= 0 {
        0
    } else {
        total_matches_upto(cells, height, i - 1) + cell_matches(cells, height, i - 1)
    }
}

/// The lattice's matching-pair count: over every cell, the number of its
/// orthogonal neighbors that share its state. Pairs are ordered, so each
/// unordered adjacent pair of equal spins is counted once from each side;
/// cells at an edge simply have fewer neighbors.
pub open spec fn total_matches(cells: Seq<Spin>, height: int) -> int {
    total_matches_upto(cells, height, cells.len() as int)
}

/// Field coefficient of the first `i` cells: `-1` for each `Up` cell,
/// `+1` for each `Down` cell.
pub open spec fn field_sum_upto(cells: Seq<Spin>, i: int) -> int
    decreases i,
{
    if i <= 0 {
        0
    } else {
        field_sum_upto(cells, i - 1) + if cells[i - 1] is Up {
            -1int
        } else {
            1int
        }
    }
}

/// The lattice's field coefficient: `-1` per `Up` cell, `+1` per `Down` cell,
/// so a positive external field lowers the energy of `Up` cells.
pub open spec fn field_sum(cells: Seq<Spin>) -> int {
    field_sum_upto(cells, cells.len() as int)
}

/// The exact integer coefficients of a lattice configuration's energy. The
/// total energy is
/// `matching_pairs * pairing_energy + field_sum * external_field`;
/// the host combines these counts with its two scalar parameters, so relative
/// comparisons between configurations are exact here.
#[derive(Clone, Copy, PartialEq, Eq, Structural, Debug)]
pub struct ScoreTerms {
    /// Ordered count of orthogonally adjacent cell pairs with equal states.
    pub matching_pairs: u64,
    /// Number of `Down` cells minus number of `Up` cells.
    pub field_sum: i64,
}

impl ScoreTerms {
    /// These coefficients are exactly those of the given configuration.
    pub open spec fn is_terms_of(self, cells: Seq<Spin>, height: int) -> bool {
        &&& self.matching_pairs as int == total_matches(cells, height)
        &&& self.field_sum as int == field_sum(cells)
    }
}

/// The per-cell match count over a prefix never exceeds the prefix length.
proof fn lemma_cell_matches_upto_bounds(cells: Seq<Spin>, height: int, i: int, j: int)
    requires
        0 <= j,
    ensures
        0 <= cell_matches_upto(cells, height, i, j) <= j,
    decreases j,
{
    if j > 0 {
        lemma_cell_matches_upto_bounds(cells, height, i, j - 1);
    }
}

/// The pair count over the first `i` cells never exceeds `i * cells.len()`.
proof fn lemma_total_matches_upto_bounds(cells: Seq<Spin>, height: int, i: int)
    requires
        0 <= i,
    ensures
        0 <= total_matches_upto(cells, height, i) <= i * cells.len(),
    decreases i,
{
    if i > 0 {
        lemma_total_matches_upto_bounds(cells, height, i - 1);
        lemma_cell_matches_upto_bounds(cells, height, i - 1, cells.len() as int);
        assert((i - 1) * cells.len() + cells.len() == i * cells.len()) by (nonlinear_arith);
    }
}

/// A running pair count of `i` full rows and one partial row stays under the
/// square of the cell count, which itself fits in a `u64`.
proof fn lemma_pair_count_fits(i: int, n: int)
    requires
        0 <= i < n,
        n <= 0xFFFF_FFFF,
    ensures
        i * n + n <= n * n,
        n * n < 0xFFFF_FFFF_FFFF_FFFF,
{
    assert(i * n + n <= n * n) by (nonlinear_arith)
        requires
            0 <= i < n,
    ;
    assert(n * n < 0xFFFF_FFFF_FFFF_FFFF) by (nonlinear_arith)
        requires
            0 <= n <= 0xFFFF_FFFF,
    ;
}

/// The field coefficient over the first `i` cells lies in `[-i, i]`.
proof fn lemma_field_sum_upto_bounds(cells: Seq<Spin>, i: int)
    requires
        0 <= i,
    ensures
        -i <= field_sum_upto(cells, i) <= i,
    decreases i,
{
    if i > 0 {
        lemma_field_sum_upto_bounds(cells, i - 1);
    }
}

impl Lattice {
    /// Evaluates the energy coefficients of the current configuration by the
    /// all-pairs test the model defines: for each cell, every other cell at
    /// offset exactly 1 along exactly one axis and with equal state adds one
    /// matching pair, and the cell itself moves the field coefficient by `-1`
    /// (`Up`) or `+1` (`Down`). Pure read; no mutation.
    pub fn score_terms(&self) -> (t: ScoreTerms)
        requires
            self.wf(),
        ensures
            t.is_terms_of(self.spec_cells(), self.spec_height() as int),
    {
        let ghost cells = self.cells@;
        let n = self.cells.len();
        let width = self.width;
        let height = self.height;
        let mut pairs: u64 = 0;
        let mut field: i64 = 0;
        let mut i: usize = 0;
        proof {
            self.lemma_model();
            if n > 0 {
                assert(height > 0) by (nonlinear_arith)
                    requires
                        n == width * height,
                        n > 0,
                ;
            }
        }
        while i < n
            invariant
                i <= n,
                n == cells.len(),
                n <= crate::lattice::MAX_CELLS,
                n > 0 ==> height > 0,
                cells == self.cells@,
                height == self.height,
                pairs as int == total_matches_upto(cells, height as int, i as int),
                field as int == field_sum_upto(cells, i as int),
            decreases n - i,
        {
            let xi = i / height;
            let yi = i % height;
            let si = self.cells[i];
            let mut row: u64 = 0;
            let mut j: usize = 0;
            while j < n
                invariant
                    i < n,
                    j <= n,
                    n == cells.len(),
                    n <= crate::lattice::MAX_CELLS,
                    height > 0,
                    cells == self.cells@,
                    height == self.height,
                    xi == coord_x(i as int, height as int),
                    yi == coord_y(i as int, height as int),
                    si == cells[i as int],
                    row as int == cell_matches_upto(cells, height as int, i as int, j as int),
                decreases n - j,
            {
                let xj = j / height;
                let yj = j % height;
                let dx = if xi >= xj {
                    xi - xj
                } else {
                    xj - xi
                };
                let dy = if yi >= yj {
                    yi - yj
                } else {
                    yj - yi
                };
                let adj = (dx == 1 && dy == 0) || (dx == 0 && dy == 1);
                if adj && si == self.cells[j] {
                    proof {
                        lemma_cell_matches_upto_bounds(cells, height as int, i as int, j as int);
                    }
                    row = row + 1;
                }
                j = j + 1;
            }
            pairs = {
                proof {
                    lemma_total_matches_upto_bounds(cells, height as int, i as int);
                    lemma_cell_matches_upto_bounds(cells, height as int, i as int, n as int);
                    lemma_pair_count_fits(i as int, n as int);
                }
                pairs + row
            };
            field = {
                proof {
                    lemma_field_sum_upto_bounds(cells, i as int);
                }
                if si == Spin::Up {
                    field - 1
                } else {
                    field + 1
                }
            };
            i = i + 1;
        }
        proof {
            self.lemma_model();
        }
        ScoreTerms { matching_pairs: pairs, field_sum: field }
    }

    /// The coefficients of the configuration with cell `index` toggled,
    /// evaluated by flipping the cell, scoring, and flipping it back.
    pub(crate) fn probe_terms(&mut self, index: usize) -> (t: ScoreTerms)
        requires
            old(self).wf(),
            index < old(self).spec_cells().len(),
        ensures
            final(self).same_state(old(self)),
            final(self).wf(),
            t.is_terms_of(
                old(self).spec_cells().update(
                    index as int,
                    old(self).spec_cells()[index as int].spec_flip(),
                ),
                old(self).spec_height() as int,
            ),
    {
        let _ = self.flip(index);
        let t = self.score_terms();
        let _ = self.flip(index);
        proof {
            let s0 = old(self).spec_cells();
            assert(s0[index as int].spec_flip().spec_flip() == s0[index as int]);
            assert(self.spec_cells() =~= s0);
        }
        t
    }

    /// Probes the candidate move at `index`: evaluates the energy coefficients
    /// the lattice would have with that one cell toggled. A pure probe — the
    /// lattice reads back identically afterwards, however many times it is
    /// called. Fails with `IndexOutOfRange`, with no other effect, exactly
    /// when `index` is outside `[0, width * height)`.
    pub fn score_mutation_terms(&mut self, index: usize) -> (r: Result<
        ScoreTerms,
        LatticeError,
    >)
        requires
            old(self).wf(),
        ensures
            final(self).same_state(old(self)),
            final(self).wf(),
            index < old(self).spec_cells().len() ==> (r matches Ok(t) && t.is_terms_of(
                old(self).spec_cells().update(
                    index as int,
                    old(self).spec_cells()[index as int].spec_flip(),
                ),
                old(self).spec_height() as int,
            )),
            index >= old(self).spec_cells().len() ==> r == Result::<
                ScoreTerms,
                LatticeError,
            >::Err(LatticeError::IndexOutOfRange),
    {
        if index >= self.len() {
            return Err(LatticeError::IndexOutOfRange);
        }
        Ok(self.probe_terms(index))
    }
}

} // verus!

