use vstd::prelude::*;

use crate::energy::ScoreTerms;
use crate::lattice::Lattice;
use crate::lattice::LatticeError;

verus! {

/// One proposed single-cell move, with the exact energy coefficients of the
/// present configuration and of the candidate configuration (the target cell
/// toggled). The host turns both into scalar energies with its parameters,
/// applies the Metropolis criterion, and reports the outcome back through
/// [`Lattice::decide_and_commit`].
#[derive(Clone, Copy, PartialEq, Eq, Structural, Debug)]
pub struct Proposal {
    /// The cell whose toggle is proposed, in creation order.
    pub index: usize,
    /// Coefficients of the configuration as it stands.
    pub current: ScoreTerms,
    /// Coefficients of the configuration with the target cell toggled.
    pub candidate: ScoreTerms,
}

impl Lattice {
    /// Proposes one move and evaluates it: draws the mutation target uniformly
    /// from `[1, width * height)` and returns the energy coefficients of the
    /// present and of the candidate configuration. The lattice itself is left
    /// unchanged. Cell 0 is deliberately never proposed: the sampling range
    /// excludes the first cell in creation order, and this engine keeps that
    /// range as its documented behaviour. At least two cells are required,
    /// since otherwise the sampling range is empty.
    pub fn propose(&mut self, rng: &mut rand::rngs::StdRng) -> (p: Proposal)
        requires
            old(self).wf(),
            old(self).spec_cells().len() >= 2,
        ensures
            final(self).same_state(old(self)),
            final(self).wf(),
            1 <= p.index < old(self).spec_cells().len(),
            p.current.is_terms_of(old(self).spec_cells(), old(self).spec_height() as int),
            p.candidate.is_terms_of(
                old(self).spec_cells().update(
                    p.index as int,
                    old(self).spec_cells()[p.index as int].spec_flip(),
                ),
                old(self).spec_height() as int,
            ),
    {
        let n = self.len();
        let index = crate::rng::draw_index(rng, n);
        let current = self.score_terms();
        let candidate = self.probe_terms(index);
        Proposal { index, current, candidate }
    }

    /// Applies the host's Metropolis decision to the proposed move: the move
    /// is committed — the target cell toggled in place — exactly when it
    /// strictly improves (lowers) the energy or the acceptance draw passed,
    /// and discarded otherwise, leaving the lattice unchanged. Returns whether
    /// the move was committed. Fails with `IndexOutOfRange`, with no other
    /// effect, exactly when `index` is outside `[0, width * height)`.
    ///
    /// A strictly improving move is committed whatever the temperature: the
    /// host only evaluates an acceptance probability for the other moves.
    pub fn decide_and_commit(&mut self, index: usize, improves: bool, draw_accepts: bool) -> (r:
        Result<bool, LatticeError>)
        ensures
            final(self).spec_width() == old(self).spec_width(),
            final(self).spec_height() == old(self).spec_height(),
            old(self).wf() ==> final(self).wf(),
            index < old(self).spec_cells().len() ==> r == Result::<bool, LatticeError>::Ok(
                improves || draw_accepts,
            ),
            index < old(self).spec_cells().len() && (improves || draw_accepts)
                ==> final(self).spec_cells() == old(self).spec_cells().update(
                index as int,
                old(self).spec_cells()[index as int].spec_flip(),
            ),
            index < old(self).spec_cells().len() && !(improves || draw_accepts)
                ==> final(self).spec_cells() == old(self).spec_cells(),
            index >= old(self).spec_cells().len() ==> r == Result::<bool, LatticeError>::Err(
                LatticeError::IndexOutOfRange,
            ) && final(self).spec_cells() == old(self).spec_cells(),
    {
        if index >= self.len() {
            return Err(LatticeError::IndexOutOfRange);
        }
        if improves || draw_accepts {
            let _ = self.flip(index);
            Ok(true)
        } else {
            Ok(false)
        }
    }
}

} // verus!
