use vstd::prelude::*;
use crate::grid::{Grid, Position};
use super::{Positions, PositionsEnumerator};

verus! {

/// The recovery rule of grid-wide iteration over a grid `w` columns wide: (0, 0) first;
/// after the last column of a row, the first column of the next row; else the next column.
pub open spec fn row_major_after(w: nat, prev: Option<Position>) -> Position {
    match prev {
        None => Position { x: 0, y: 0 },
        Some(p) => if p.x + 1 == w {
            Position { x: 0, y: (p.y + 1) as usize }
        } else {
            Position { x: (p.x + 1) as usize, y: p.y }
        },
    }
}

/// The position handed out at the `k`-th call (from 0) when the rule is applied from the start.
pub open spec fn row_major_nth(w: nat, k: nat) -> Position
    decreases k,
{
    if k == 0 {
        row_major_after(w, None)
    } else {
        row_major_after(w, Some(row_major_nth(w, (k - 1) as nat)))
    }
}

/// Row-major successor: the flat index after `i` lies one column further, or at the
/// start of the next row when `i` is in the last column.
pub proof fn lemma_row_major_successor(w: int, i: int)
    requires
        w > 0,
        i >= 0,
    ensures
        0 <= i % w < w,
        0 <= i / w <= i,
        i % w + 1 == w ==> (i + 1) % w == 0 && (i + 1) / w == i / w + 1,
        i % w + 1 != w ==> (i + 1) % w == i % w + 1 && (i + 1) / w == i / w,
{
    vstd::arithmetic::div_mod::lemma_fundamental_div_mod(i, w);
    vstd::arithmetic::div_mod::lemma_mod_pos_bound(i, w);
    let q = i / w;
    let r = i % w;
    assert(0 <= q <= i) by (nonlinear_arith)
        requires
            i == w * q + r,
            0 <= r < w,
            w > 0,
            i >= 0,
    ;
    if r + 1 == w {
        assert(i + 1 == (q + 1) * w + 0) by (nonlinear_arith)
            requires
                i == w * q + r,
                r + 1 == w,
        ;
        vstd::arithmetic::div_mod::lemma_fundamental_div_mod_converse(i + 1, w, q + 1, 0);
    } else {
        assert(i + 1 == q * w + (r + 1)) by (nonlinear_arith)
            requires
                i == w * q + r,
        ;
        vstd::arithmetic::div_mod::lemma_fundamental_div_mod_converse(i + 1, w, q, r + 1);
    }
}

/// The grid-wide recovery rule yields the positions in row-major order:
/// the `k`-th is column `k % w` of row `k / w`.
pub proof fn lemma_row_major_order(w: nat, k: nat)
    requires
        0 < w <= usize::MAX,
        k <= usize::MAX,
    ensures
        row_major_nth(w, k) == (Position { x: (k % w) as usize, y: (k / w) as usize }),
    decreases k,
{
    if k == 0 {
        vstd::arithmetic::div_mod::lemma_fundamental_div_mod_converse(0, w as int, 0, 0);
    } else {
        lemma_row_major_order(w, (k - 1) as nat);
        lemma_row_major_successor(w as int, k - 1);
        lemma_row_major_successor(w as int, k as int);
    }
}

/// Over a `width` by `height` grid, the `k`-th element of grid-wide iteration, and the
/// `k`-th position that the recovery rule hands out, is column `k % width` of row
/// `k / width`: (0, 0), (1, 0), ..., (width - 1, 0), (0, 1), ..., (width - 1, height - 1).
pub proof fn lemma_grid_positions_row_major<T>(g: Grid<T>, k: nat)
    requires
        g.wf(),
        k < g.cells().len(),
    ensures
        g.position_of(k as int) == (Position {
            x: (k % g.width()) as usize,
            y: (k / g.width()) as usize,
        }),
        row_major_nth(g.width(), k) == g.position_of(k as int),
        g.in_bounds(g.position_of(k as int)),
{
    let w = g.width();
    let h = g.height();
    assert(w <= g.cells().len()) by (nonlinear_arith)
        requires
            g.cells().len() == w * h,
            h > 0,
    ;
    lemma_row_major_order(w, k);
    g.lemma_position_of(k as int);
}

/// Yields every element of the grid, row after row.
pub struct GridIter<'a, T> {
    pub(crate) grid: &'a Grid<T>,
    pub(crate) idx: usize,
}

impl<'a, T> GridIter<'a, T> {
    pub(crate) fn new(grid: &'a Grid<T>) -> (r: GridIter<'a, T>)
        requires
            grid.wf(),
        ensures
            r.wf(),
            r.grid_view() == *grid,
            r.index() == 0,
            r.remaining() == Seq::new(grid.cells().len(), |i: int| grid.position_of(i)),
    {
        let r = GridIter { grid, idx: 0 };
        assert(r.remaining() =~= Seq::new(grid.cells().len(), |i: int| grid.position_of(i)));
        r
    }

    /// The grid iterated over.
    pub closed spec fn grid_view(&self) -> Grid<T> {
        *self.grid
    }

    /// How many elements have been yielded.
    pub closed spec fn index(&self) -> nat {
        self.idx as nat
    }

    pub open spec fn wf(&self) -> bool {
        self.grid_view().wf() && self.index() <= self.grid_view().cells().len()
    }

    /// The positions of the elements still to come, in order.
    pub open spec fn remaining(&self) -> Seq<Position> {
        Seq::new(
            (self.grid_view().cells().len() - self.index()) as nat,
            |i: int| self.grid_view().position_of(self.index() + i),
        )
    }

    /// Returns the next element, or `None` once every element was yielded.
    pub fn next(&mut self) -> (r: Option<&'a T>)
        requires
            old(self).wf(),
        ensures
            final(self).wf(),
            final(self).grid_view() == old(self).grid_view(),
            r is Some <==> old(self).remaining().len() > 0,
            r is Some ==> *r->Some_0 == old(self).grid_view().at(old(self).remaining()[0]),
            r is Some ==> old(self).grid_view().in_bounds(old(self).remaining()[0]),
            r is Some ==> final(self).remaining() == old(self).remaining().drop_first(),
            r is Some ==> final(self).index() == old(self).index() + 1,
            r is None ==> *final(self) == *old(self),
    {
        proof {
            self.grid.lemma_fields();
        }
        if self.idx < self.grid.items.len() {
            let i = self.idx;
            proof {
                self.grid.lemma_fields();
                self.grid.lemma_position_of(i as int);
            }
            self.idx = self.idx + 1;
            assert(self.remaining() =~= old(self).remaining().drop_first());
            Some(self.grid.cell_at(i))
        } else {
            None
        }
    }
}

impl<'a, T> PositionsEnumerator for GridIter<'a, T> {
    open spec fn upcoming(&self) -> Option<Position> {
        if self.remaining().len() > 0 {
            Some(self.remaining()[0])
        } else {
            None
        }
    }

    open spec fn agrees(&self, prev: Option<Position>) -> bool {
        &&& self.wf()
        &&& prev == if self.index() == 0 {
            None
        } else {
            Some(self.grid_view().position_of(self.index() - 1))
        }
    }

    fn next_position(&self, prev: Option<Position>) -> (r: Position) {
        proof {
            self.grid.lemma_fields();
            if self.index() > 0 {
                lemma_row_major_successor(self.grid_view().width() as int, self.index() - 1);
            } else {
                vstd::arithmetic::div_mod::lemma_fundamental_div_mod_converse(
                    0,
                    self.grid_view().width() as int,
                    0,
                    0,
                );
            }
        }
        match prev {
            None => Position::new(0, 0),
            Some(p) => {
                if p.x == self.grid.width - 1 {
                    Position::new(0, p.y + 1)
                } else {
                    Position::new(p.x + 1, p.y)
                }
            },
        }
    }
}

impl<'a, T> Positions<GridIter<'a, T>> {
    /// Returns the next element together with its position.
    pub fn next(&mut self) -> (r: Option<(Position, &'a T)>)
        requires
            old(self).inv(),
        ensures
            final(self).inv(),
            final(self).inner().grid_view() == old(self).inner().grid_view(),
            r is Some ==> final(self).prev() == Some(r->Some_0.0),
            r is None ==> final(self).inner() == old(self).inner(),
            r is Some ==> final(self).inner().index() == old(self).inner().index() + 1,
            r is Some <==> old(self).inner().upcoming() is Some,
            r is Some ==> r->Some_0.0 == old(self).inner().upcoming()->Some_0,
            r is Some ==> old(self).inner().grid_view().lookup(r->Some_0.0) == Some(*r->Some_0.1),
            r is Some ==> final(self).inner().remaining() == old(self).inner().remaining().drop_first(),
    {
        let pos = self.inner.next_position(self.prev_position);
        match self.inner.next() {
            Some(v) => {
                self.prev_position = Some(pos);
                Some((pos, v))
            },
            None => None,
        }
    }
}

/// Yields a mutable reference to every element of the grid, row after row.
pub struct GridIterMut<'a, T> {
    pub(crate) grid: &'a mut Grid<T>,
    pub(crate) idx: usize,
}

impl<'a, T> GridIterMut<'a, T> {
    pub(crate) fn new(grid: &'a mut Grid<T>) -> (r: GridIterMut<'a, T>)
        requires
            old(grid).wf(),
        ensures
            r.wf(),
            r.grid_view() == *old(grid),
            r.index() == 0,
            r.remaining() == Seq::new(old(grid).cells().len(), |i: int| old(grid).position_of(i)),
    {
        let ghost g = *grid;
        let r = GridIterMut { grid, idx: 0 };
        assert(r.remaining() =~= Seq::new(g.cells().len(), |i: int| g.position_of(i)));
        r
    }

    /// The grid iterated over, as it stands now.
    pub closed spec fn grid_view(&self) -> Grid<T> {
        *self.grid
    }

    /// How many elements have been yielded.
    pub closed spec fn index(&self) -> nat {
        self.idx as nat
    }

    pub open spec fn wf(&self) -> bool {
        self.grid_view().wf() && self.index() <= self.grid_view().cells().len()
    }

    /// The positions of the elements still to come, in order.
    pub open spec fn remaining(&self) -> Seq<Position> {
        Seq::new(
            (self.grid_view().cells().len() - self.index()) as nat,
            |i: int| self.grid_view().position_of(self.index() + i),
        )
    }

    /// Returns the next element, or `None` once every element was yielded.
    /// A value written through the reference lands in the grid.
    pub fn next(&mut self) -> (r: Option<&mut T>)
        requires
            old(self).wf(),
        ensures
            final(self).wf(),
            final(self).grid_view().same_shape(&old(self).grid_view()),
            r is Some <==> old(self).remaining().len() > 0,
            r is Some ==> *r->Some_0 == old(self).grid_view().at(old(self).remaining()[0]),
            r is Some ==> old(self).grid_view().in_bounds(old(self).remaining()[0]),
            r is Some ==> final(self).grid_view().cells() == old(self).grid_view().cells().update(
                old(self).grid_view().index_of(old(self).remaining()[0]),
                *final(r->Some_0),
            ),
            r is Some ==> final(self).remaining() == old(self).remaining().drop_first(),
            r is Some ==> final(self).index() == old(self).index() + 1,
            r is None ==> *final(self) == *old(self),
    {
        proof {
            self.grid.lemma_fields();
        }
        if self.idx < self.grid.items.len() {
            let i = self.idx;
            proof {
                self.grid.lemma_fields();
                self.grid.lemma_position_of(i as int);
            }
            self.idx = self.idx + 1;
            Some(self.grid.cell_at_mut(i))
        } else {
            None
        }
    }
}

impl<'a, T> PositionsEnumerator for GridIterMut<'a, T> {
    open spec fn upcoming(&self) -> Option<Position> {
        if self.remaining().len() > 0 {
            Some(self.remaining()[0])
        } else {
            None
        }
    }

    open spec fn agrees(&self, prev: Option<Position>) -> bool {
        &&& self.wf()
        &&& prev == if self.index() == 0 {
            None
        } else {
            Some(self.grid_view().position_of(self.index() - 1))
        }
    }

    fn next_position(&self, prev: Option<Position>) -> (r: Position) {
        proof {
            self.grid.lemma_fields();
            if self.index() > 0 {
                lemma_row_major_successor(self.grid_view().width() as int, self.index() - 1);
            } else {
                vstd::arithmetic::div_mod::lemma_fundamental_div_mod_converse(
                    0,
                    self.grid_view().width() as int,
                    0,
                    0,
                );
            }
        }
        match prev {
            None => Position::new(0, 0),
            Some(p) => {
                if p.x == self.grid.width - 1 {
                    Position::new(0, p.y + 1)
                } else {
                    Position::new(p.x + 1, p.y)
                }
            },
        }
    }
}

impl<'a, T> Positions<GridIterMut<'a, T>> {
    /// Returns the next element together with its position.
    pub fn next(&mut self) -> (r: Option<(Position, &mut T)>)
        requires
            old(self).inv(),
        ensures
            final(self).inv(),
            final(self).inner().grid_view().same_shape(&old(self).inner().grid_view()),
            r is Some ==> final(self).inner().grid_view().cells() == old(
                self,
            ).inner().grid_view().cells().update(
                old(self).inner().grid_view().index_of(r->Some_0.0),
                *final(r->Some_0.1),
            ),
            r is Some ==> final(self).prev() == Some(r->Some_0.0),
            r is None ==> final(self).inner() == old(self).inner(),
            r is Some ==> final(self).inner().index() == old(self).inner().index() + 1,
            r is Some <==> old(self).inner().upcoming() is Some,
            r is Some ==> r->Some_0.0 == old(self).inner().upcoming()->Some_0,
            r is Some ==> old(self).inner().grid_view().lookup(r->Some_0.0) == Some(*r->Some_0.1),
            r is Some ==> final(self).inner().remaining() == old(self).inner().remaining().drop_first(),
    {
        let pos = self.inner.next_position(self.prev_position);
        match self.inner.next() {
            Some(v) => {
                self.prev_position = Some(pos);
                Some((pos, v))
            },
            None => None,
        }
    }
}

} // verus!
