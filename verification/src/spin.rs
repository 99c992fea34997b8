use vstd::prelude::*;

verus! {

/// The binary state of one lattice site. Exactly two values are representable,
/// so no invalid state can arise and toggling is a total operation.
#[derive(Clone, Copy, PartialEq, Eq, Structural, Debug)]
pub enum Spin {
    Up,
    Down,
}

impl Spin {
    /// The toggled state: `Up` becomes `Down` and `Down` becomes `Up`.
    pub open spec fn spec_flip(self) -> Spin {
        match self {
            Spin::Up => Spin::Down,
            Spin::Down => Spin::Up,
        }
    }

    /// The signed unit value of a state: `+1` for `Up`, `-1` for `Down`.
    pub open spec fn spec_value(self) -> int {
        match self {
            Spin::Up => 1,
            Spin::Down => -1,
        }
    }

    /// Toggles the state, with no other effect.
    pub fn flip(self) -> (r: Spin)
        ensures
            r == self.spec_flip(),
    {
        match self {
            Spin::Up => Spin::Down,
            Spin::Down => Spin::Up,
        }
    }
}

} // verus!
