use vstd::prelude::*;

verus! {

/// An occupant of a board cell.
#[derive(Clone, Copy, Debug, PartialEq, Eq, Structural)]
pub enum Piece {
    Knight,
    Queen,
}

/// The eight knight moves, named by compass octant.
#[derive(Clone, Copy, Debug, PartialEq, Eq, Structural)]
pub enum KnightMove {
    NNE,
    ENE,
    ESE,
    SSE,
    SSW,
    WSW,
    WNW,
    NNW,
}

impl KnightMove {
    /// The displacement `(dx, dy)` of this move; `y` grows downward.
    pub open spec fn delta(self) -> (int, int) {
        match self {
            KnightMove::NNE => (1, -2),
            KnightMove::ENE => (2, -1),
            KnightMove::ESE => (2, 1),
            KnightMove::SSE => (1, 2),
            KnightMove::SSW => (-1, 2),
            KnightMove::WSW => (-2, 1),
            KnightMove::WNW => (-2, -1),
            KnightMove::NNW => (-1, -2),
        }
    }

    pub fn coord_delta(&self) -> (r: (i8, i8))
        ensures
            (r.0 as int, r.1 as int) == self.delta(),
    {
        match self {
            KnightMove::NNE => (1, -2),
            KnightMove::ENE => (2, -1),
            KnightMove::ESE => (2, 1),
            KnightMove::SSE => (1, 2),
            KnightMove::SSW => (-1, 2),
            KnightMove::WSW => (-2, 1),
            KnightMove::WNW => (-2, -1),
            KnightMove::NNW => (-1, -2),
        }
    }
}

/// Distinct moves have distinct displacements.
pub proof fn lemma_deltas_distinct(a: KnightMove, b: KnightMove)
    ensures
        a.delta() == b.delta() ==> a == b,
{
}

} // verus!
