//! Iterators over the cells of a [`Grid`](crate::Grid), and the overlay that reports
//! the position of each element they yield.
use vstd::prelude::*;
use crate::grid::Position;

mod column_iter;
mod grid_iter;
mod neighbor_iter;
mod pattern_iter;
mod position_iter;
mod row_iter;

pub use column_iter::{ColumnIter, ColumnIterMut};
pub use grid_iter::{
    lemma_grid_positions_row_major, lemma_row_major_order, lemma_row_major_successor,
    row_major_after, row_major_nth, GridIter, GridIterMut,
};
pub use neighbor_iter::{NeighborIter, NeighborIterMut};
pub use pattern_iter::{
    jump_targets, lands, lemma_jumps_traversal, lemma_pattern_overlay_lockstep,
    lemma_resolve_jumps, lemma_resolve_lands, lemma_resolve_side_steps, lemma_side_steps_traversal,
    resolve, side_step_targets, PatternIter, PatternIterMut,
};
pub use position_iter::PositionsIter;
pub use row_iter::{RowIter, RowIterMut};

verus! {

/// An iterator over grid cells that can tell, before it advances, the position of the
/// element it yields next.
///
/// The recovery rule `next_position` sees the iterator's state and the position handed
/// out last; `agrees` says when that position is consistent with the state.
pub trait PositionsEnumerator: Sized {
    /// The position of the element that the next call of `next` yields, if it yields one.
    spec fn upcoming(&self) -> Option<Position>;

    /// Whether `prev`, the position handed out last (`None` before the first), is
    /// consistent with the iterator's state.
    spec fn agrees(&self, prev: Option<Position>) -> bool;

    /// The recovery rule: the position of the element that the next call of `next`
    /// yields, computed from the state and `prev` alone, without advancing.
    fn next_position(&self, prev: Option<Position>) -> (r: Position)
        requires
            self.agrees(prev),
        ensures
            self.upcoming() is Some ==> r == self.upcoming()->Some_0,
    ;

    /// Wraps the iterator so that each element comes with its position.
    fn grid_positions(self) -> (r: Positions<Self>)
        requires
            self.agrees(None),
        ensures
            r.inner() == self,
            r.prev() is None,
    {
        Positions { inner: self, prev_position: None }
    }
}

/// An iterator wrapped so that each element comes with its position in the grid.
pub struct Positions<I> {
    pub(crate) inner: I,
    pub(crate) prev_position: Option<Position>,
}

impl<I> Positions<I> {
    /// The wrapped iterator.
    pub closed spec fn inner(&self) -> I {
        self.inner
    }

    /// The position handed out last.
    pub closed spec fn prev(&self) -> Option<Position> {
        self.prev_position
    }
}

impl<I: PositionsEnumerator> Positions<I> {
    /// The position handed out last is consistent with the wrapped iterator.
    pub open spec fn inv(&self) -> bool {
        self.inner().agrees(self.prev())
    }
}

} // verus!
