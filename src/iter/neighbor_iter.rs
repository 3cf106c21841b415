use vstd::prelude::*;
use crate::grid::{Grid, Position};
use super::{Positions, PositionsEnumerator};

verus! {

/// Yields the elements around a center cell, in the order the neighbour positions were
/// computed: the row above from left to right, then left and right, then the row below.
pub struct NeighborIter<'a, T> {
    pub(crate) positions: Vec<Position>,
    pub(crate) grid: &'a Grid<T>,
    pub(crate) idx: usize,
}

impl<'a, T> NeighborIter<'a, T> {
    pub(crate) fn new(grid: &'a Grid<T>, positions: Vec<Position>) -> (r: NeighborIter<'a, T>)
        requires
            grid.wf(),
            forall|i: int| 0 <= i < positions@.len() ==> grid.in_bounds(#[trigger] positions@[i]),
        ensures
            r.wf(),
            r.grid_view() == *grid,
            r.neighbor_positions() == positions@,
            r.remaining() == positions@,
    {
        let r = NeighborIter { positions, grid, idx: 0 };
        assert(r.remaining() =~= r.neighbor_positions());
        r
    }

    /// The grid iterated over.
    pub closed spec fn grid_view(&self) -> Grid<T> {
        *self.grid
    }

    /// The neighbour positions, all of them, computed when the iterator was made.
    pub closed spec fn neighbor_positions(&self) -> Seq<Position> {
        self.positions@
    }

    /// How many elements have been yielded.
    pub closed spec fn index(&self) -> nat {
        self.idx as nat
    }

    pub open spec fn wf(&self) -> bool {
        &&& self.grid_view().wf()
        &&& self.index() <= self.neighbor_positions().len()
        &&& forall|i: int|
            0 <= i < self.neighbor_positions().len() ==> self.grid_view().in_bounds(
                #[trigger] self.neighbor_positions()[i],
            )
    }

    /// The positions of the elements still to come, in order.
    pub open spec fn remaining(&self) -> Seq<Position> {
        self.neighbor_positions().subrange(
            self.index() as int,
            self.neighbor_positions().len() as int,
        )
    }

    /// Returns the next neighbour, or `None` once all were yielded.
    pub fn next(&mut self) -> (r: Option<&'a T>)
        requires
            old(self).wf(),
        ensures
            final(self).wf(),
            final(self).grid_view() == old(self).grid_view(),
            final(self).neighbor_positions() == old(self).neighbor_positions(),
            r is Some <==> old(self).remaining().len() > 0,
            r is Some ==> *r->Some_0 == old(self).grid_view().at(old(self).remaining()[0]),
            r is Some ==> old(self).grid_view().in_bounds(old(self).remaining()[0]),
            r is Some ==> final(self).remaining() == old(self).remaining().drop_first(),
            r is None ==> *final(self) == *old(self),
    {
        if self.idx < self.positions.len() {
            let pos = self.positions[self.idx];
            self.idx = self.idx + 1;
            assert(self.remaining() =~= old(self).remaining().drop_first());
            Some(self.grid.get_unchecked(pos))
        } else {
            None
        }
    }
}

impl<'a, T> PositionsEnumerator for NeighborIter<'a, T> {
    open spec fn upcoming(&self) -> Option<Position> {
        if self.remaining().len() > 0 {
            Some(self.remaining()[0])
        } else {
            None
        }
    }

    open spec fn agrees(&self, prev: Option<Position>) -> bool {
        self.wf()
    }

    fn next_position(&self, prev: Option<Position>) -> (r: Position) {
        if self.idx < self.positions.len() {
            self.positions[self.idx]
        } else {
            // `next` yields nothing here, so no position goes out with this one.
            Position::new(0, 0)
        }
    }
}

impl<'a, T> Positions<NeighborIter<'a, T>> {
    /// Returns the next neighbour together with its position.
    pub fn next(&mut self) -> (r: Option<(Position, &'a T)>)
        requires
            old(self).inv(),
        ensures
            final(self).inv(),
            final(self).inner().grid_view() == old(self).inner().grid_view(),
            r is Some ==> final(self).prev() == Some(r->Some_0.0),
            r is None ==> final(self).inner() == old(self).inner(),
            final(self).inner().neighbor_positions() == old(self).inner().neighbor_positions(),
            r is Some <==> old(self).inner().upcoming() is Some,
            r is Some ==> r->Some_0.0 == old(self).inner().upcoming()->Some_0,
            r is Some ==> old(self).inner().grid_view().lookup(r->Some_0.0) == Some(*r->Some_0.1),
            r is Some ==> final(self).inner().remaining() == old(self).inner().remaining().drop_first(),
    {
        let pos = self.inner.next_position(self.prev_position);
        match self.inner.next() {
            Some(v) => {
                self.prev_position = Some(pos);
                Some((pos, v))
            },
            None => None,
        }
    }
}

/// Yields a mutable reference to each element around a center cell, in the order of
/// `NeighborIter`.
pub struct NeighborIterMut<'a, T> {
    pub(crate) positions: Vec<Position>,
    pub(crate) grid: &'a mut Grid<T>,
    pub(crate) idx: usize,
}

impl<'a, T> NeighborIterMut<'a, T> {
    pub(crate) fn new(grid: &'a mut Grid<T>, positions: Vec<Position>) -> (r: NeighborIterMut<'a, T>)
        requires
            old(grid).wf(),
            forall|i: int| 0 <= i < positions@.len() ==> old(grid).in_bounds(#[trigger] positions@[i]),
        ensures
            r.wf(),
            r.grid_view() == *old(grid),
            r.neighbor_positions() == positions@,
            r.remaining() == positions@,
    {
        let r = NeighborIterMut { positions, grid, idx: 0 };
        assert(r.remaining() =~= r.neighbor_positions());
        r
    }

    /// The grid iterated over, as it stands now.
    pub closed spec fn grid_view(&self) -> Grid<T> {
        *self.grid
    }

    /// The neighbour positions, all of them, computed when the iterator was made.
    pub closed spec fn neighbor_positions(&self) -> Seq<Position> {
        self.positions@
    }

    /// How many elements have been yielded.
    pub closed spec fn index(&self) -> nat {
        self.idx as nat
    }

    pub open spec fn wf(&self) -> bool {
        &&& self.grid_view().wf()
        &&& self.index() <= self.neighbor_positions().len()
        &&& forall|i: int|
            0 <= i < self.neighbor_positions().len() ==> self.grid_view().in_bounds(
                #[trigger] self.neighbor_positions()[i],
            )
    }

    /// The positions of the elements still to come, in order.
    pub open spec fn remaining(&self) -> Seq<Position> {
        self.neighbor_positions().subrange(
            self.index() as int,
            self.neighbor_positions().len() as int,
        )
    }

    /// Returns the next neighbour, or `None` once all were yielded.
    /// A value written through the reference lands in the grid.
    pub fn next(&mut self) -> (r: Option<&mut T>)
        requires
            old(self).wf(),
        ensures
            final(self).wf(),
            final(self).grid_view().same_shape(&old(self).grid_view()),
            final(self).neighbor_positions() == old(self).neighbor_positions(),
            r is Some <==> old(self).remaining().len() > 0,
            r is Some ==> *r->Some_0 == old(self).grid_view().at(old(self).remaining()[0]),
            r is Some ==> old(self).grid_view().in_bounds(old(self).remaining()[0]),
            r is Some ==> final(self).grid_view().cells() == old(self).grid_view().cells().update(
                old(self).grid_view().index_of(old(self).remaining()[0]),
                *final(r->Some_0),
            ),
            r is Some ==> final(self).remaining() == old(self).remaining().drop_first(),
            r is None ==> *final(self) == *old(self),
    {
        if self.idx < self.positions.len() {
            let pos = self.positions[self.idx];
            proof {
                self.grid.lemma_index(pos);
            }
            self.idx = self.idx + 1;
            assert(self.remaining() =~= old(self).remaining().drop_first());
            Some(self.grid.get_mut_unchecked(pos))
        } else {
            None
        }
    }
}

impl<'a, T> PositionsEnumerator for NeighborIterMut<'a, T> {
    open spec fn upcoming(&self) -> Option<Position> {
        if self.remaining().len() > 0 {
            Some(self.remaining()[0])
        } else {
            None
        }
    }

    open spec fn agrees(&self, prev: Option<Position>) -> bool {
        self.wf()
    }

    fn next_position(&self, prev: Option<Position>) -> (r: Position) {
        if self.idx < self.positions.len() {
            self.positions[self.idx]
        } else {
            // `next` yields nothing here, so no position goes out with this one.
            Position::new(0, 0)
        }
    }
}

impl<'a, T> Positions<NeighborIterMut<'a, T>> {
    /// Returns the next neighbour together with its position.
    pub fn next(&mut self) -> (r: Option<(Position, &mut T)>)
        requires
            old(self).inv(),
        ensures
            final(self).inv(),
            final(self).inner().grid_view().same_shape(&old(self).inner().grid_view()),
            r is Some ==> final(self).inner().grid_view().cells() == old(
                self,
            ).inner().grid_view().cells().update(
                old(self).inner().grid_view().index_of(r->Some_0.0),
                *final(r->Some_0.1),
            ),
            r is Some ==> final(self).prev() == Some(r->Some_0.0),
            r is None ==> final(self).inner() == old(self).inner(),
            final(self).inner().neighbor_positions() == old(self).inner().neighbor_positions(),
            r is Some <==> old(self).inner().upcoming() is Some,
            r is Some ==> r->Some_0.0 == old(self).inner().upcoming()->Some_0,
            r is Some ==> old(self).inner().grid_view().lookup(r->Some_0.0) == Some(*r->Some_0.1),
            r is Some ==> final(self).inner().remaining() == old(self).inner().remaining().drop_first(),
    {
        let pos = self.inner.next_position(self.prev_position);
        match self.inner.next() {
            Some(v) => {
                self.prev_position = Some(pos);
                Some((pos, v))
            },
            None => None,
        }
    }
}

} // verus!
