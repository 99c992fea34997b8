use vstd::prelude::*;

use crate::spin::Spin;

verus! {

/// The one runtime failure the lattice can report: a mutation aimed at a cell
/// index outside `[0, width * height)`.
#[derive(Clone, Copy, PartialEq, Eq, Structural, Debug)]
pub enum LatticeError {
    IndexOutOfRange,
}

/// Cap on `width * height`, so that every count the energy accounting forms
/// (at most `cells * cells` ordered pairs) fits in a `u64`.
pub const MAX_CELLS: usize = 0xFFFF_FFFF;

/// A fixed-size two-dimensional grid of binary spins.
///
/// Cells are stored in creation order: the outer loop runs over `x` in
/// `[0, width)`, the inner loop over `y` in `[0, height)`, so the cell at
/// `(x, y)` sits at index `x * height + y`. That order is the contract for the
/// exported state sequence. No cell is added or removed after construction.
pub struct Lattice {
    pub(crate) width: usize,
    pub(crate) height: usize,
    pub(crate) cells: Vec<Spin>,
}

impl Lattice {
    /// The number of columns, fixed at construction.
    pub closed spec fn spec_width(&self) -> usize {
        self.width
    }

    /// The number of rows, fixed at construction.
    pub closed spec fn spec_height(&self) -> usize {
        self.height
    }

    /// The spins in creation order (`x` outer, `y` inner).
    pub closed spec fn spec_cells(&self) -> Seq<Spin> {
        self.cells@
    }

    /// Well-formedness: the cell count always equals `width * height`, and the
    /// grid is small enough that pair counts cannot overflow a `u64`.
    pub open spec fn wf(&self) -> bool {
        &&& self.spec_cells().len() == self.spec_width() * self.spec_height()
        &&& self.spec_cells().len() <= MAX_CELLS
    }

    /// The two lattices hold the same dimensions and the same spins.
    pub open spec fn same_state(&self, other: &Lattice) -> bool {
        &&& self.spec_width() == other.spec_width()
        &&& self.spec_height() == other.spec_height()
        &&& self.spec_cells() == other.spec_cells()
    }

    /// Within the crate, the spec views are exactly the fields.
    pub(crate) proof fn lemma_model(&self)
        ensures
            self.spec_cells() == self.cells@,
            self.spec_width() == self.width,
            self.spec_height() == self.height,
    {
    }

    /// The number of cells, `width * height`.
    pub fn len(&self) -> (n: usize)
        ensures
            n == self.spec_cells().len(),
    {
        self.cells.len()
    }

    /// The number of columns.
    pub fn width(&self) -> (w: usize)
        ensures
            w == self.spec_width(),
    {
        self.width
    }

    /// The number of rows.
    pub fn height(&self) -> (h: usize)
        ensures
            h == self.spec_height(),
    {
        self.height
    }

    /// Builds a `width` by `height` lattice whose cells are drawn independently
    /// from `rng`, one of two equally likely outcomes each, in creation order.
    ///
    /// Degenerate sizes are permitted: a zero `width` or `height` yields an
    /// empty lattice (though such a lattice supports no annealing step). The
    /// size cap is a machine limit, not a modelling choice.
    pub fn new(width: usize, height: usize, rng: &mut rand::rngs::StdRng) -> (g: Lattice)
        requires
            width * height <= MAX_CELLS,
        ensures
            g.wf(),
            g.spec_width() == width,
            g.spec_height() == height,
    {
        let mut cells: Vec<Spin> = Vec::new();
        let mut x: usize = 0;
        while x < width
            invariant
                x <= width,
                width * height <= MAX_CELLS,
                cells@.len() == x * height,
            decreases width - x,
        {
            let mut y: usize = 0;
            while y < height
                invariant
                    x < width,
                    y <= height,
                    width * height <= MAX_CELLS,
                    cells@.len() == x * height + y,
                decreases height - y,
            {
                proof {
                    lemma_cell_index_in_bounds(width as int, height as int, x as int, y as int);
                }
                let draw = crate::rng::draw_one_or_two(rng);
                let state = if draw == 1 {
                    Spin::Up
                } else {
                    Spin::Down
                };
                cells.push(state);
                y = y + 1;
            }
            proof {
                assert((x + 1) * height == x * height + height) by (nonlinear_arith);
            }
            x = x + 1;
        }
        Lattice { width, height, cells }
    }

    /// Toggles the state of the cell at `index` in creation order, `Up` and
    /// `Down` exchanged, with no other effect. Fails with `IndexOutOfRange`,
    /// leaving the lattice unchanged, exactly when `index` is outside
    /// `[0, width * height)`.
    pub fn flip(&mut self, index: usize) -> (r: Result<(), LatticeError>)
        ensures
            final(self).spec_width() == old(self).spec_width(),
            final(self).spec_height() == old(self).spec_height(),
            index < old(self).spec_cells().len() ==> {
                &&& r is Ok
                &&& final(self).spec_cells() == old(self).spec_cells().update(
                    index as int,
                    old(self).spec_cells()[index as int].spec_flip(),
                )
            },
            index >= old(self).spec_cells().len() ==> {
                &&& r == Result::<(), LatticeError>::Err(LatticeError::IndexOutOfRange)
                &&& final(self).spec_cells() == old(self).spec_cells()
            },
    {
        if index >= self.cells.len() {
            return Err(LatticeError::IndexOutOfRange);
        }
        let toggled = self.cells[index].flip();
        self.cells.set(index, toggled);
        Ok(())
    }

    /// Produces, in creation order, the signed unit value of every cell:
    /// `+1` for `Up`, `-1` for `Down`. One value per cell, so the result has
    /// exactly `width * height` elements for a well-formed lattice. Pure read.
    pub fn return_state(&self) -> (r: Vec<i32>)
        ensures
            r@.len() == self.spec_cells().len(),
            forall|i: int|
                0 <= i < r@.len() ==> r@[i] as int == self.spec_cells()[i].spec_value(),
            self.wf() ==> r@.len() == self.spec_width() * self.spec_height(),
            forall|i: int| 0 <= i < r@.len() ==> (r@[i] == 1i32 || r@[i] == -1i32),
    {
        let mut results: Vec<i32> = Vec::new();
        let mut i: usize = 0;
        while i < self.cells.len()
            invariant
                i <= self.spec_cells().len(),
                r_matches_prefix(results@, self.spec_cells(), i as int),
            decreases self.spec_cells().len() - i,
        {
            let v: i32 = match self.cells[i] {
                Spin::Up => 1,
                Spin::Down => -1,
            };
            results.push(v);
            i = i + 1;
        }
        results
    }
}

/// The first `n` exported values match the spins' signed unit values.
spec fn r_matches_prefix(r: Seq<i32>, cells: Seq<Spin>, n: int) -> bool {
    &&& r.len() == n
    &&& forall|i: int| 0 <= i < n ==> r[i] as int == cells[i].spec_value()
}

/// Inside the fill loops, the next cell index stays below the total count.
proof fn lemma_cell_index_in_bounds(width: int, height: int, x: int, y: int)
    requires
        0 <= x < width,
        0 <= y < height,
    ensures
        x * height + y < width * height,
{
    assert(x * height + y < (x + 1) * height <= width * height) by (nonlinear_arith)
        requires
            0 <= x < width,
            0 <= y < height,
    ;
}

} // verus!
