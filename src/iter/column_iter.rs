use vstd::prelude::*;
use crate::grid::{Grid, Position};
use super::{Positions, PositionsEnumerator};

verus! {

/// Yields every element of one column, from the first row to the last.
pub struct ColumnIter<'a, T> {
    pub(crate) row_idx: usize,
    pub(crate) col_idx: usize,
    pub(crate) grid: &'a Grid<T>,
}

impl<'a, T> ColumnIter<'a, T> {
    pub(crate) fn new(grid: &'a Grid<T>, x: usize) -> (r: ColumnIter<'a, T>)
        requires
            grid.wf(),
            x < grid.width(),
        ensures
            r.wf(),
            r.grid_view() == *grid,
            r.column() == x,
            r.row() == 0,
            r.remaining() == Seq::new(grid.height(), |i: int| Position { x, y: i as usize }),
    {
        let r = ColumnIter { row_idx: 0, col_idx: x, grid };
        assert(r.remaining() =~= Seq::new(grid.height(), |i: int| Position { x, y: i as usize }));
        r
    }

    /// The grid iterated over.
    pub closed spec fn grid_view(&self) -> Grid<T> {
        *self.grid
    }

    /// The column walked.
    pub closed spec fn column(&self) -> nat {
        self.col_idx as nat
    }

    /// The row of the next element.
    pub closed spec fn row(&self) -> nat {
        self.row_idx as nat
    }

    pub open spec fn wf(&self) -> bool {
        &&& self.grid_view().wf()
        &&& self.column() < self.grid_view().width()
        &&& self.row() <= self.grid_view().height()
    }

    /// The positions of the elements still to come, in order.
    pub open spec fn remaining(&self) -> Seq<Position> {
        Seq::new(
            (self.grid_view().height() - self.row()) as nat,
            |i: int| Position { x: self.column() as usize, y: (self.row() + i) as usize },
        )
    }

    /// Returns the next element of the column, or `None` past its end.
    pub fn next(&mut self) -> (r: Option<&'a T>)
        requires
            old(self).wf(),
        ensures
            final(self).wf(),
            final(self).grid_view() == old(self).grid_view(),
            final(self).column() == old(self).column(),
            r is Some <==> old(self).remaining().len() > 0,
            r is Some ==> *r->Some_0 == old(self).grid_view().at(old(self).remaining()[0]),
            r is Some ==> old(self).grid_view().in_bounds(old(self).remaining()[0]),
            r is Some ==> final(self).remaining() == old(self).remaining().drop_first(),
            r is Some ==> final(self).row() == old(self).row() + 1,
            r is None ==> *final(self) == *old(self),
    {
        proof {
            self.grid.lemma_fields();
        }
        if self.row_idx < self.grid.height {
            let pos = Position::new(self.col_idx, self.row_idx);
            self.row_idx = self.row_idx + 1;
            assert(self.remaining() =~= old(self).remaining().drop_first());
            Some(self.grid.get_unchecked(pos))
        } else {
            None
        }
    }
}

impl<'a, T> PositionsEnumerator for ColumnIter<'a, T> {
    open spec fn upcoming(&self) -> Option<Position> {
        if self.remaining().len() > 0 {
            Some(self.remaining()[0])
        } else {
            None
        }
    }

    open spec fn agrees(&self, prev: Option<Position>) -> bool {
        self.wf()
    }

    fn next_position(&self, prev: Option<Position>) -> (r: Position) {
        Position::new(self.col_idx, self.row_idx)
    }
}

impl<'a, T> Positions<ColumnIter<'a, T>> {
    /// Returns the next element together with its position.
    pub fn next(&mut self) -> (r: Option<(Position, &'a T)>)
        requires
            old(self).inv(),
        ensures
            final(self).inv(),
            final(self).inner().grid_view() == old(self).inner().grid_view(),
            r is Some ==> final(self).prev() == Some(r->Some_0.0),
            r is None ==> final(self).inner() == old(self).inner(),
            final(self).inner().column() == old(self).inner().column(),
            r is Some ==> final(self).inner().row() == old(self).inner().row() + 1,
            r is Some <==> old(self).inner().upcoming() is Some,
            r is Some ==> r->Some_0.0 == old(self).inner().upcoming()->Some_0,
            r is Some ==> old(self).inner().grid_view().lookup(r->Some_0.0) == Some(*r->Some_0.1),
            r is Some ==> final(self).inner().remaining() == old(self).inner().remaining().drop_first(),
    {
        let pos = self.inner.next_position(self.prev_position);
        match self.inner.next() {
            Some(v) => {
                self.prev_position = Some(pos);
                Some((pos, v))
            },
            None => None,
        }
    }
}

/// Yields a mutable reference to every element of one column, from the first row to the last.
pub struct ColumnIterMut<'a, T> {
    pub(crate) grid: &'a mut Grid<T>,
    pub(crate) col_idx: usize,
    pub(crate) row_idx: usize,
}

impl<'a, T> ColumnIterMut<'a, T> {
    pub(crate) fn new(grid: &'a mut Grid<T>, x: usize) -> (r: ColumnIterMut<'a, T>)
        requires
            old(grid).wf(),
            x < old(grid).width(),
        ensures
            r.wf(),
            r.grid_view() == *old(grid),
            r.column() == x,
            r.row() == 0,
            r.remaining() == Seq::new(old(grid).height(), |i: int| Position { x, y: i as usize }),
    {
        let ghost g = *grid;
        let r = ColumnIterMut { grid, col_idx: x, row_idx: 0 };
        assert(r.remaining() =~= Seq::new(g.height(), |i: int| Position { x, y: i as usize }));
        r
    }

    /// The grid iterated over, as it stands now.
    pub closed spec fn grid_view(&self) -> Grid<T> {
        *self.grid
    }

    /// The column walked.
    pub closed spec fn column(&self) -> nat {
        self.col_idx as nat
    }

    /// The row of the next element.
    pub closed spec fn row(&self) -> nat {
        self.row_idx as nat
    }

    pub open spec fn wf(&self) -> bool {
        &&& self.grid_view().wf()
        &&& self.column() < self.grid_view().width()
        &&& self.row() <= self.grid_view().height()
    }

    /// The positions of the elements still to come, in order.
    pub open spec fn remaining(&self) -> Seq<Position> {
        Seq::new(
            (self.grid_view().height() - self.row()) as nat,
            |i: int| Position { x: self.column() as usize, y: (self.row() + i) as usize },
        )
    }

    /// Returns the next element of the column, or `None` past its end.
    /// A value written through the reference lands in the grid.
    pub fn next(&mut self) -> (r: Option<&mut T>)
        requires
            old(self).wf(),
        ensures
            final(self).wf(),
            final(self).grid_view().same_shape(&old(self).grid_view()),
            final(self).column() == old(self).column(),
            r is Some <==> old(self).remaining().len() > 0,
            r is Some ==> *r->Some_0 == old(self).grid_view().at(old(self).remaining()[0]),
            r is Some ==> old(self).grid_view().in_bounds(old(self).remaining()[0]),
            r is Some ==> final(self).grid_view().cells() == old(self).grid_view().cells().update(
                old(self).grid_view().index_of(old(self).remaining()[0]),
                *final(r->Some_0),
            ),
            r is Some ==> final(self).remaining() == old(self).remaining().drop_first(),
            r is Some ==> final(self).row() == old(self).row() + 1,
            r is None ==> *final(self) == *old(self),
    {
        proof {
            self.grid.lemma_fields();
        }
        if self.row_idx < self.grid.height {
            let pos = Position::new(self.col_idx, self.row_idx);
            proof {
                self.grid.lemma_index(pos);
            }
            self.row_idx = self.row_idx + 1;
            Some(self.grid.get_mut_unchecked(pos))
        } else {
            None
        }
    }
}

impl<'a, T> PositionsEnumerator for ColumnIterMut<'a, T> {
    open spec fn upcoming(&self) -> Option<Position> {
        if self.remaining().len() > 0 {
            Some(self.remaining()[0])
        } else {
            None
        }
    }

    open spec fn agrees(&self, prev: Option<Position>) -> bool {
        &&& self.wf()
        &&& prev == if self.row() == 0 {
            None
        } else {
            Some(Position { x: self.column() as usize, y: (self.row() - 1) as usize })
        }
    }

    fn next_position(&self, prev: Option<Position>) -> (r: Position) {
        proof {
            self.grid.lemma_fields();
        }
        match prev {
            None => Position::new(self.col_idx, 0),
            Some(p) => Position::new(p.x, p.y + 1),
        }
    }
}

impl<'a, T> Positions<ColumnIterMut<'a, T>> {
    /// Returns the next element together with its position.
    pub fn next(&mut self) -> (r: Option<(Position, &mut T)>)
        requires
            old(self).inv(),
        ensures
            final(self).inv(),
            final(self).inner().grid_view().same_shape(&old(self).inner().grid_view()),
            r is Some ==> final(self).inner().grid_view().cells() == old(
                self,
            ).inner().grid_view().cells().update(
                old(self).inner().grid_view().index_of(r->Some_0.0),
                *final(r->Some_0.1),
            ),
            r is Some ==> final(self).prev() == Some(r->Some_0.0),
            r is None ==> final(self).inner() == old(self).inner(),
            final(self).inner().column() == old(self).inner().column(),
            r is Some ==> final(self).inner().row() == old(self).inner().row() + 1,
            r is Some <==> old(self).inner().upcoming() is Some,
            r is Some ==> r->Some_0.0 == old(self).inner().upcoming()->Some_0,
            r is Some ==> old(self).inner().grid_view().lookup(r->Some_0.0) == Some(*r->Some_0.1),
            r is Some ==> final(self).inner().remaining() == old(self).inner().remaining().drop_first(),
    {
        let pos = self.inner.next_position(self.prev_position);
        match self.inner.next() {
            Some(v) => {
                self.prev_position = Some(pos);
                Some((pos, v))
            },
            None => None,
        }
    }
}

} // verus!
