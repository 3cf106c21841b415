use vstd::prelude::*;
use crate::grid::{Grid, Position};
use super::{Positions, PositionsEnumerator};

verus! {

/// Yields every element of one row, from the first column to the last.
pub struct RowIter<'a, T> {
    pub(crate) grid: &'a Grid<T>,
    pub(crate) idx: usize,
    pub(crate) col: usize,
}

impl<'a, T> RowIter<'a, T> {
    pub(crate) fn new(grid: &'a Grid<T>, y: usize) -> (r: RowIter<'a, T>)
        requires
            grid.wf(),
            y < grid.height(),
        ensures
            r.wf(),
            r.grid_view() == *grid,
            r.row() == y,
            r.column() == 0,
            r.remaining() == Seq::new(grid.width(), |i: int| Position { x: i as usize, y }),
    {
        let r = RowIter { grid, idx: y, col: 0 };
        assert(r.remaining() =~= Seq::new(grid.width(), |i: int| Position { x: i as usize, y }));
        r
    }

    /// The grid iterated over.
    pub closed spec fn grid_view(&self) -> Grid<T> {
        *self.grid
    }

    /// The row walked.
    pub closed spec fn row(&self) -> nat {
        self.idx as nat
    }

    /// The column of the next element.
    pub closed spec fn column(&self) -> nat {
        self.col as nat
    }

    pub open spec fn wf(&self) -> bool {
        &&& self.grid_view().wf()
        &&& self.row() < self.grid_view().height()
        &&& self.column() <= self.grid_view().width()
    }

    /// The positions of the elements still to come, in order.
    pub open spec fn remaining(&self) -> Seq<Position> {
        Seq::new(
            (self.grid_view().width() - self.column()) as nat,
            |i: int| Position { x: (self.column() + i) as usize, y: self.row() as usize },
        )
    }

    /// Returns the next element of the row, or `None` past its end.
    pub fn next(&mut self) -> (r: Option<&'a T>)
        requires
            old(self).wf(),
        ensures
            final(self).wf(),
            final(self).grid_view() == old(self).grid_view(),
            final(self).row() == old(self).row(),
            r is Some <==> old(self).remaining().len() > 0,
            r is Some ==> *r->Some_0 == old(self).grid_view().at(old(self).remaining()[0]),
            r is Some ==> old(self).grid_view().in_bounds(old(self).remaining()[0]),
            r is Some ==> final(self).remaining() == old(self).remaining().drop_first(),
            r is Some ==> final(self).column() == old(self).column() + 1,
            r is None ==> *final(self) == *old(self),
    {
        proof {
            self.grid.lemma_fields();
        }
        if self.col < self.grid.width {
            let pos = Position::new(self.col, self.idx);
            self.col = self.col + 1;
            assert(self.remaining() =~= old(self).remaining().drop_first());
            Some(self.grid.get_unchecked(pos))
        } else {
            None
        }
    }
}

impl<'a, T> PositionsEnumerator for RowIter<'a, T> {
    open spec fn upcoming(&self) -> Option<Position> {
        if self.remaining().len() > 0 {
            Some(self.remaining()[0])
        } else {
            None
        }
    }

    open spec fn agrees(&self, prev: Option<Position>) -> bool {
        &&& self.wf()
        &&& prev == if self.column() == 0 {
            None
        } else {
            Some(Position { x: (self.column() - 1) as usize, y: self.row() as usize })
        }
    }

    fn next_position(&self, prev: Option<Position>) -> (r: Position) {
        proof {
            self.grid.lemma_fields();
        }
        match prev {
            None => Position::new(0, self.idx),
            Some(p) => Position::new(p.x + 1, p.y),
        }
    }
}

impl<'a, T> Positions<RowIter<'a, T>> {
    /// Returns the next element together with its position.
    pub fn next(&mut self) -> (r: Option<(Position, &'a T)>)
        requires
            old(self).inv(),
        ensures
            final(self).inv(),
            final(self).inner().grid_view() == old(self).inner().grid_view(),
            r is Some ==> final(self).prev() == Some(r->Some_0.0),
            r is None ==> final(self).inner() == old(self).inner(),
            final(self).inner().row() == old(self).inner().row(),
            r is Some ==> final(self).inner().column() == old(self).inner().column() + 1,
            r is Some <==> old(self).inner().upcoming() is Some,
            r is Some ==> r->Some_0.0 == old(self).inner().upcoming()->Some_0,
            r is Some ==> old(self).inner().grid_view().lookup(r->Some_0.0) == Some(*r->Some_0.1),
            r is Some ==> final(self).inner().remaining() == old(self).inner().remaining().drop_first(),
    {
        let pos = self.inner.next_position(self.prev_position);
        match self.inner.next() {
            Some(v) => {
                self.prev_position = Some(pos);
                Some((pos, v))
            },
            None => None,
        }
    }
}

/// Yields a mutable reference to every element of one row, from the first column to the last.
pub struct RowIterMut<'a, T> {
    pub(crate) grid: &'a mut Grid<T>,
    pub(crate) idx: usize,
    pub(crate) col: usize,
}

impl<'a, T> RowIterMut<'a, T> {
    pub(crate) fn new(grid: &'a mut Grid<T>, y: usize) -> (r: RowIterMut<'a, T>)
        requires
            old(grid).wf(),
            y < old(grid).height(),
        ensures
            r.wf(),
            r.grid_view() == *old(grid),
            r.row() == y,
            r.column() == 0,
            r.remaining() == Seq::new(old(grid).width(), |i: int| Position { x: i as usize, y }),
    {
        let ghost g = *grid;
        let r = RowIterMut { grid, idx: y, col: 0 };
        assert(r.remaining() =~= Seq::new(g.width(), |i: int| Position { x: i as usize, y }));
        r
    }

    /// The grid iterated over, as it stands now.
    pub closed spec fn grid_view(&self) -> Grid<T> {
        *self.grid
    }

    /// The row walked.
    pub closed spec fn row(&self) -> nat {
        self.idx as nat
    }

    /// The column of the next element.
    pub closed spec fn column(&self) -> nat {
        self.col as nat
    }

    pub open spec fn wf(&self) -> bool {
        &&& self.grid_view().wf()
        &&& self.row() < self.grid_view().height()
        &&& self.column() <= self.grid_view().width()
    }

    /// The positions of the elements still to come, in order.
    pub open spec fn remaining(&self) -> Seq<Position> {
        Seq::new(
            (self.grid_view().width() - self.column()) as nat,
            |i: int| Position { x: (self.column() + i) as usize, y: self.row() as usize },
        )
    }

    /// Returns the next element of the row, or `None` past its end.
    /// A value written through the reference lands in the grid.
    pub fn next(&mut self) -> (r: Option<&mut T>)
        requires
            old(self).wf(),
        ensures
            final(self).wf(),
            final(self).grid_view().same_shape(&old(self).grid_view()),
            final(self).row() == old(self).row(),
            r is Some <==> old(self).remaining().len() > 0,
            r is Some ==> *r->Some_0 == old(self).grid_view().at(old(self).remaining()[0]),
            r is Some ==> old(self).grid_view().in_bounds(old(self).remaining()[0]),
            r is Some ==> final(self).grid_view().cells() == old(self).grid_view().cells().update(
                old(self).grid_view().index_of(old(self).remaining()[0]),
                *final(r->Some_0),
            ),
            r is Some ==> final(self).remaining() == old(self).remaining().drop_first(),
            r is Some ==> final(self).column() == old(self).column() + 1,
            r is None ==> *final(self) == *old(self),
    {
        proof {
            self.grid.lemma_fields();
        }
        if self.col < self.grid.width {
            let pos = Position::new(self.col, self.idx);
            proof {
                self.grid.lemma_index(pos);
            }
            self.col = self.col + 1;
            Some(self.grid.get_mut_unchecked(pos))
        } else {
            None
        }
    }
}

impl<'a, T> PositionsEnumerator for RowIterMut<'a, T> {
    open spec fn upcoming(&self) -> Option<Position> {
        if self.remaining().len() > 0 {
            Some(self.remaining()[0])
        } else {
            None
        }
    }

    open spec fn agrees(&self, prev: Option<Position>) -> bool {
        &&& self.wf()
        &&& prev == if self.column() == 0 {
            None
        } else {
            Some(Position { x: (self.column() - 1) as usize, y: self.row() as usize })
        }
    }

    fn next_position(&self, prev: Option<Position>) -> (r: Position) {
        proof {
            self.grid.lemma_fields();
        }
        match prev {
            None => Position::new(0, self.idx),
            Some(p) => Position::new(p.x + 1, p.y),
        }
    }
}

impl<'a, T> Positions<RowIterMut<'a, T>> {
    /// Returns the next element together with its position.
    pub fn next(&mut self) -> (r: Option<(Position, &mut T)>)
        requires
            old(self).inv(),
        ensures
            final(self).inv(),
            final(self).inner().grid_view().same_shape(&old(self).inner().grid_view()),
            r is Some ==> final(self).inner().grid_view().cells() == old(
                self,
            ).inner().grid_view().cells().update(
                old(self).inner().grid_view().index_of(r->Some_0.0),
                *final(r->Some_0.1),
            ),
            r is Some ==> final(self).prev() == Some(r->Some_0.0),
            r is None ==> final(self).inner() == old(self).inner(),
            final(self).inner().row() == old(self).inner().row(),
            r is Some ==> final(self).inner().column() == old(self).inner().column() + 1,
            r is Some <==> old(self).inner().upcoming() is Some,
            r is Some ==> r->Some_0.0 == old(self).inner().upcoming()->Some_0,
            r is Some ==> old(self).inner().grid_view().lookup(r->Some_0.0) == Some(*r->Some_0.1),
            r is Some ==> final(self).inner().remaining() == old(self).inner().remaining().drop_first(),
    {
        let pos = self.inner.next_position(self.prev_position);
        match self.inner.next() {
            Some(v) => {
                self.prev_position = Some(pos);
                Some((pos, v))
            },
            None => None,
        }
    }
}

} // verus!
