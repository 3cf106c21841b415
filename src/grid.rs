use vstd::prelude::*;
use crate::iter::{
    ColumnIter, ColumnIterMut, GridIter, GridIterMut, NeighborIter, NeighborIterMut, PatternIter,
    PatternIterMut, PositionsIter, RowIter, RowIterMut,
};
use crate::pattern::Pattern;
use crate::step::N;

verus! {

/// The x offset of the `k`-th neighbour, in the order: the row above from left to
/// right, the left and the right cell, the row below from left to right.
pub open spec fn neighbor_dx(k: int) -> int {
    if k == 0 || k == 3 || k == 5 {
        -1
    } else if k == 1 || k == 6 {
        0
    } else {
        1
    }
}

/// The y offset of the `k`-th neighbour, in the order of `neighbor_dx`.
pub open spec fn neighbor_dy(k: int) -> int {
    if k < 3 {
        -1
    } else if k < 5 {
        0
    } else {
        1
    }
}

/// The offsets of the `k`-th neighbour, as sign and magnitude.
fn neighbor_offset(k: usize) -> (r: (N, N))
    requires
        k < 8,
    ensures
        r.0.value() == neighbor_dx(k as int),
        r.1.value() == neighbor_dy(k as int),
{
    match k {
        0 => (N::N(1), N::N(1)),
        1 => (N::P(0), N::N(1)),
        2 => (N::P(1), N::N(1)),
        3 => (N::N(1), N::P(0)),
        4 => (N::P(1), N::P(0)),
        5 => (N::N(1), N::P(1)),
        6 => (N::P(0), N::P(1)),
        _ => (N::P(1), N::P(1)),
    }
}

/// A position in the grid: column `x` and row `y`, with (0, 0) at the top left.
#[derive(Copy, Clone, Debug, PartialEq, Eq, Structural)]
pub struct Position {
    pub x: usize,
    pub y: usize,
}

impl Position {
    pub fn new(x: usize, y: usize) -> (r: Position)
        ensures
            r.x == x,
            r.y == y,
    {
        Position { x, y }
    }
}

impl From<(usize, usize)> for Position {
    fn from(xy: (usize, usize)) -> (r: Position) {
        Position { x: xy.0, y: xy.1 }
    }
}

impl vstd::std_specs::convert::FromSpecImpl<(usize, usize)> for Position {
    open spec fn obeys_from_spec() -> bool {
        true
    }

    open spec fn from_spec(xy: (usize, usize)) -> Position {
        Position { x: xy.0, y: xy.1 }
    }
}

impl From<Position> for (usize, usize) {
    fn from(pos: Position) -> (r: (usize, usize)) {
        (pos.x, pos.y)
    }
}

impl vstd::std_specs::convert::FromSpecImpl<Position> for (usize, usize) {
    open spec fn obeys_from_spec() -> bool {
        true
    }

    open spec fn from_spec(pos: Position) -> (usize, usize) {
        (pos.x, pos.y)
    }
}

/// `y * w + x < w * h` for a cell inside a `w` by `h` grid.
pub proof fn lemma_index_in_range(w: nat, h: nat, x: nat, y: nat)
    requires
        x < w,
        y < h,
    ensures
        y * w + x < w * h,
        0 <= y * w + x,
{
    assert(y * w + x < w * h) by (nonlinear_arith)
        requires
            x < w,
            y < h,
    ;
    assert(0 <= y * w) by (nonlinear_arith);
}

/// `get` finds a value exactly at the positions inside the grid, and there it finds the
/// value that `get_unchecked` returns for the same position.
pub proof fn lemma_checked_matches_unchecked<T>(g: Grid<T>, p: Position)
    requires
        g.wf(),
    ensures
        g.lookup(p) is Some <==> p.x < g.width() && p.y < g.height(),
        g.lookup(p) is Some ==> g.lookup(p)->Some_0 == g.at(p),
{
}

/// A dense two-dimensional grid stored row by row; (0, 0) is the top left corner.
#[derive(Debug, PartialEq)]
pub struct Grid<T> {
    pub(crate) items: Vec<T>,
    pub(crate) width: usize,
    pub(crate) height: usize,
}

impl<T> Grid<T> {
    /// The number of columns.
    pub closed spec fn width(&self) -> nat {
        self.width as nat
    }

    /// The number of rows.
    pub closed spec fn height(&self) -> nat {
        self.height as nat
    }

    /// The cells, row after row.
    pub closed spec fn cells(&self) -> Seq<T> {
        self.items@
    }

    /// The grid holds exactly `width * height` cells, and neither dimension is zero.
    pub open spec fn wf(&self) -> bool {
        &&& self.width() > 0
        &&& self.height() > 0
        &&& self.cells().len() == self.width() * self.height()
        &&& self.cells().len() <= usize::MAX
    }

    pub open spec fn in_bounds(&self, p: Position) -> bool {
        p.x < self.width() && p.y < self.height()
    }

    /// Where the cell of `p` lies in `cells()`.
    pub open spec fn index_of(&self, p: Position) -> int {
        p.y * self.width() + p.x
    }

    /// The value of the cell at `p`.
    pub open spec fn at(&self, p: Position) -> T {
        self.cells()[self.index_of(p)]
    }

    /// The value at `p`, when `p` lies in the grid.
    pub open spec fn lookup(&self, p: Position) -> Option<T> {
        if self.in_bounds(p) {
            Some(self.at(p))
        } else {
            None
        }
    }

    /// The position whose cell lies at `i` in `cells()`.
    pub open spec fn position_of(&self, i: int) -> Position {
        Position { x: (i % self.width() as int) as usize, y: (i / self.width() as int) as usize }
    }

    /// The in-grid neighbours of `p` among the first `k` neighbour offsets, in offset order.
    pub open spec fn neighbors_upto(&self, p: Position, k: nat) -> Seq<Position>
        decreases k,
    {
        if k == 0 {
            Seq::empty()
        } else {
            let before = self.neighbors_upto(p, (k - 1) as nat);
            let x = p.x + neighbor_dx(k - 1);
            let y = p.y + neighbor_dy(k - 1);
            if 0 <= x < self.width() && 0 <= y < self.height() {
                before.push(Position { x: x as usize, y: y as usize })
            } else {
                before
            }
        }
    }

    /// The positions of the up to eight cells around `p` that lie in the grid, in the
    /// order: the row above from left to right, left, right, the row below from left to right.
    pub open spec fn neighbor_positions(&self, p: Position) -> Seq<Position> {
        self.neighbors_upto(p, 8)
    }

    /// Same dimensions as `other`.
    pub open spec fn same_shape(&self, other: &Grid<T>) -> bool {
        self.width() == other.width() && self.height() == other.height()
    }

    /// Ties the model to the fields, for the iterators of this crate.
    pub(crate) proof fn lemma_fields(&self)
        ensures
            self.cells() == self.items@,
            self.width() == self.width as nat,
            self.height() == self.height as nat,
    {
    }

    /// The cell at `i` in `cells()` lies at `position_of(i)`.
    pub proof fn lemma_position_of(&self, i: int)
        requires
            self.wf(),
            0 <= i < self.cells().len(),
        ensures
            self.in_bounds(self.position_of(i)),
            self.index_of(self.position_of(i)) == i,
            self.at(self.position_of(i)) == self.cells()[i],
    {
        let w = self.width() as int;
        let h = self.height() as int;
        vstd::arithmetic::div_mod::lemma_fundamental_div_mod(i, w);
        vstd::arithmetic::div_mod::lemma_mod_pos_bound(i, w);
        let q = i / w;
        let r = i % w;
        assert(0 <= q < h) by (nonlinear_arith)
            requires
                i == w * q + r,
                0 <= r < w,
                0 <= i < w * h,
        ;
        assert(q * w + r == i) by (nonlinear_arith)
            requires
                i == w * q + r,
        ;
    }

    pub proof fn lemma_index(&self, p: Position)
        requires
            self.wf(),
            self.in_bounds(p),
        ensures
            0 <= self.index_of(p) < self.cells().len(),
            self.index_of(p) <= usize::MAX,
    {
        lemma_index_in_range(self.width(), self.height(), p.x as nat, p.y as nat);
    }

    /// Constructs a grid over the cells of `v`, row after row.
    /// `width` and `height` must not be zero, and `v` must hold `width * height` cells.
    pub fn from(v: Vec<T>, width: usize, height: usize) -> (r: Grid<T>)
        requires
            width > 0,
            height > 0,
            width * height <= usize::MAX,
            v@.len() == width * height,
        ensures
            r.wf(),
            r.width() == width,
            r.height() == height,
            r.cells() == v@,
    {
        Grid { items: v, width, height }
    }

    #[inline]
    fn translate(&self, pos: Position) -> (r: usize)
        requires
            self.wf(),
            self.in_bounds(pos),
        ensures
            r == self.index_of(pos),
            r < self.cells().len(),
    {
        proof {
            self.lemma_index(pos);
        }
        pos.y * self.width + pos.x
    }

    /// The cell at flat index `i`.
    pub(crate) fn cell_at(&self, i: usize) -> (r: &T)
        requires
            i < self.cells().len(),
        ensures
            *r == self.cells()[i as int],
    {
        &self.items[i]
    }

    /// The cell at flat index `i`, mutably.
    pub(crate) fn cell_at_mut(&mut self, i: usize) -> (r: &mut T)
        requires
            i < old(self).cells().len(),
        ensures
            *r == old(self).cells()[i as int],
            final(self).cells() == old(self).cells().update(i as int, *final(r)),
            final(self).same_shape(old(self)),
    {
        &mut self.items[i]
    }

    /// Checks whether `pos` lies in the grid.
    #[inline]
    pub fn is_bounds(&self, pos: Position) -> (r: bool)
        ensures
            r == self.in_bounds(pos),
    {
        pos.x < self.width && pos.y < self.height
    }

    /// Returns the width and height of the grid.
    pub fn size(&self) -> (r: (usize, usize))
        ensures
            r.0 == self.width(),
            r.1 == self.height(),
    {
        (self.width, self.height)
    }

    /// Returns the number of cells.
    pub fn len(&self) -> (r: usize)
        ensures
            r == self.cells().len(),
    {
        self.items.len()
    }

    /// Returns a reference to the element at `pos`, or `None` when `pos` is out of bounds.
    pub fn get(&self, pos: Position) -> (r: Option<&T>)
        requires
            self.wf(),
        ensures
            r is Some <==> self.in_bounds(pos),
            r is Some ==> *r->Some_0 == self.at(pos),
    {
        if self.is_bounds(pos) {
            let idx = self.translate(pos);
            Some(&self.items[idx])
        } else {
            None
        }
    }

    /// Returns a mutable reference to the element at `pos`, or `None` when `pos` is out of bounds.
    pub fn get_mut(&mut self, pos: Position) -> (r: Option<&mut T>)
        requires
            old(self).wf(),
        ensures
            r is Some <==> old(self).in_bounds(pos),
            r is Some ==> *r->Some_0 == old(self).at(pos),
            r is Some ==> final(self).cells() == old(self).cells().update(
                old(self).index_of(pos),
                *final(r->Some_0),
            ),
            r is None ==> final(self).cells() == old(self).cells(),
            final(self).same_shape(old(self)),
    {
        if self.is_bounds(pos) {
            let idx = self.translate(pos);
            Some(&mut self.items[idx])
        } else {
            None
        }
    }

    /// Returns a reference to the element at `pos`; `pos` must lie in the grid.
    pub fn get_unchecked(&self, pos: Position) -> (r: &T)
        requires
            self.wf(),
            self.in_bounds(pos),
        ensures
            *r == self.at(pos),
    {
        let idx = self.translate(pos);
        &self.items[idx]
    }

    /// Returns a mutable reference to the element at `pos`; `pos` must lie in the grid.
    pub fn get_mut_unchecked(&mut self, pos: Position) -> (r: &mut T)
        requires
            old(self).wf(),
            old(self).in_bounds(pos),
        ensures
            *r == old(self).at(pos),
            final(self).cells() == old(self).cells().update(old(self).index_of(pos), *final(r)),
            final(self).same_shape(old(self)),
    {
        let idx = self.translate(pos);
        &mut self.items[idx]
    }

    /// Sets the element at `pos` to `value`.
    /// Returns `None` when `pos` is out of bounds, and leaves the grid as it was.
    pub fn set(&mut self, pos: Position, value: T) -> (r: Option<()>)
        requires
            old(self).wf(),
        ensures
            r is Some <==> old(self).in_bounds(pos),
            r is Some ==> final(self).cells() == old(self).cells().update(
                old(self).index_of(pos),
                value,
            ),
            r is None ==> final(self).cells() == old(self).cells(),
            final(self).same_shape(old(self)),
    {
        if self.is_bounds(pos) {
            let idx = self.translate(pos);
            self.items.set(idx, value);
            Some(())
        } else {
            None
        }
    }

    /// Sets the element at `pos` to `value`; `pos` must lie in the grid.
    pub fn set_unchecked(&mut self, pos: Position, value: T)
        requires
            old(self).wf(),
            old(self).in_bounds(pos),
        ensures
            final(self).cells() == old(self).cells().update(old(self).index_of(pos), value),
            final(self).same_shape(old(self)),
    {
        let idx = self.translate(pos);
        self.items.set(idx, value);
    }

    /// Puts `value` at `pos` and returns the value that was there,
    /// or `None` when `pos` is out of bounds.
    pub fn replace(&mut self, pos: Position, value: T) -> (r: Option<T>)
        requires
            old(self).wf(),
        ensures
            r == old(self).lookup(pos),
            r is Some ==> final(self).cells() == old(self).cells().update(
                old(self).index_of(pos),
                value,
            ),
            r is None ==> final(self).cells() == old(self).cells(),
            final(self).same_shape(old(self)),
    {
        if self.is_bounds(pos) {
            let idx = self.translate(pos);
            let mut old_value = value;
            std::mem::swap(&mut self.items[idx], &mut old_value);
            Some(old_value)
        } else {
            None
        }
    }

    /// Swaps the values at `pos_a` and `pos_b`; both must lie in the grid.
    pub fn swap(&mut self, pos_a: Position, pos_b: Position)
        requires
            old(self).wf(),
            old(self).in_bounds(pos_a),
            old(self).in_bounds(pos_b),
        ensures
            final(self).cells() == old(self).cells().update(
                old(self).index_of(pos_a),
                old(self).at(pos_b),
            ).update(old(self).index_of(pos_b), old(self).at(pos_a)),
            final(self).same_shape(old(self)),
    {
        let idx_a = self.translate(pos_a);
        let idx_b = self.translate(pos_b);
        if idx_a != idx_b {
            let (lo, hi) = if idx_a < idx_b {
                (idx_a, idx_b)
            } else {
                (idx_b, idx_a)
            };
            let (left, right) = self.items.as_mut_slice().split_at_mut(hi);
            let (_, from_lo) = left.split_at_mut(lo);
            match (from_lo.first_mut(), right.first_mut()) {
                (Some(a), Some(b)) => std::mem::swap(a, b),
                _ => {},
            }
        }
        assert(final(self).cells() =~= old(self).cells().update(
            old(self).index_of(pos_a),
            old(self).at(pos_b),
        ).update(old(self).index_of(pos_b), old(self).at(pos_a)));
    }

    /// Yields every position of the grid, row after row.
    pub fn positions(&self) -> (r: PositionsIter)
        requires
            self.wf(),
        ensures
            r.wf(),
            r.remaining() == Seq::new(self.cells().len(), |i: int| self.position_of(i)),
    {
        PositionsIter::new(self.items.len(), self.width)
    }

    /// Yields a reference to every element, row after row.
    pub fn iter(&self) -> (r: GridIter<'_, T>)
        requires
            self.wf(),
        ensures
            r.wf(),
            r.grid_view() == *self,
            r.index() == 0,
            r.remaining() == Seq::new(self.cells().len(), |i: int| self.position_of(i)),
    {
        GridIter::new(self)
    }

    /// Yields a mutable reference to every element, row after row.
    pub fn iter_mut(&mut self) -> (r: GridIterMut<'_, T>)
        requires
            old(self).wf(),
        ensures
            r.wf(),
            r.grid_view() == *old(self),
            r.index() == 0,
            r.remaining() == Seq::new(old(self).cells().len(), |i: int| old(self).position_of(i)),
    {
        GridIterMut::new(self)
    }

    /// Yields a reference to every element of row `y`, from left to right.
    /// `y` must be a row of the grid.
    pub fn row(&self, y: usize) -> (r: RowIter<'_, T>)
        requires
            self.wf(),
            y < self.height(),
        ensures
            r.wf(),
            r.grid_view() == *self,
            r.row() == y,
            r.column() == 0,
            r.remaining() == Seq::new(self.width(), |i: int| Position { x: i as usize, y }),
    {
        RowIter::new(self, y)
    }

    /// Yields a mutable reference to every element of row `y`, from left to right.
    /// `y` must be a row of the grid.
    pub fn row_mut(&mut self, y: usize) -> (r: RowIterMut<'_, T>)
        requires
            old(self).wf(),
            y < old(self).height(),
        ensures
            r.wf(),
            r.grid_view() == *old(self),
            r.row() == y,
            r.column() == 0,
            r.remaining() == Seq::new(old(self).width(), |i: int| Position { x: i as usize, y }),
    {
        RowIterMut::new(self, y)
    }

    /// Yields a reference to every element of column `x`, from top to bottom.
    /// `x` must be a column of the grid.
    pub fn column(&self, x: usize) -> (r: ColumnIter<'_, T>)
        requires
            self.wf(),
            x < self.width(),
        ensures
            r.wf(),
            r.grid_view() == *self,
            r.column() == x,
            r.row() == 0,
            r.remaining() == Seq::new(self.height(), |i: int| Position { x, y: i as usize }),
    {
        ColumnIter::new(self, x)
    }

    /// Yields a mutable reference to every element of column `x`, from top to bottom.
    /// `x` must be a column of the grid.
    pub fn column_mut(&mut self, x: usize) -> (r: ColumnIterMut<'_, T>)
        requires
            old(self).wf(),
            x < old(self).width(),
        ensures
            r.wf(),
            r.grid_view() == *old(self),
            r.column() == x,
            r.row() == 0,
            r.remaining() == Seq::new(old(self).height(), |i: int| Position { x, y: i as usize }),
    {
        ColumnIterMut::new(self, x)
    }

    /// Returns the positions of the cells around `pos` that lie in the grid.
    fn get_neighbor_positions(&self, pos: Position) -> (r: Vec<Position>)
        requires
            self.wf(),
        ensures
            r@ == self.neighbor_positions(pos),
    {
        let mut valid_positions: Vec<Position> = Vec::new();
        let mut k: usize = 0;
        while k < 8
            invariant
                self.wf(),
                k <= 8,
                valid_positions@ == self.neighbors_upto(pos, k as nat),
            decreases 8 - k,
        {
            let (nx, ny) = neighbor_offset(k);
            match (nx.checked_add_sub(pos.x), ny.checked_add_sub(pos.y)) {
                (Some(x), Some(y)) => {
                    if self.is_bounds(Position::new(x, y)) {
                        valid_positions.push(Position::new(x, y));
                    }
                },
                _ => {},
            }
            k = k + 1;
        }
        valid_positions
    }

    /// Yields a reference to every element around `pos`, in the order of
    /// `neighbor_positions`. `pos` must lie in the grid.
    pub fn neighbors(&self, pos: Position) -> (r: NeighborIter<'_, T>)
        requires
            self.wf(),
            self.in_bounds(pos),
        ensures
            r.wf(),
            r.grid_view() == *self,
            r.neighbor_positions() == self.neighbor_positions(pos),
            r.remaining() == self.neighbor_positions(pos),
    {
        let positions = self.get_neighbor_positions(pos);
        proof {
            self.lemma_neighbors_in_bounds(pos, 8);
        }
        NeighborIter::new(self, positions)
    }

    /// Yields a mutable reference to every element around `pos`, in the order of
    /// `neighbor_positions`. `pos` must lie in the grid.
    pub fn neighbors_mut(&mut self, pos: Position) -> (r: NeighborIterMut<'_, T>)
        requires
            old(self).wf(),
            old(self).in_bounds(pos),
        ensures
            r.wf(),
            r.grid_view() == *old(self),
            r.neighbor_positions() == old(self).neighbor_positions(pos),
            r.remaining() == old(self).neighbor_positions(pos),
    {
        let positions = self.get_neighbor_positions(pos);
        proof {
            self.lemma_neighbors_in_bounds(pos, 8);
        }
        NeighborIterMut::new(self, positions)
    }

    /// Every position listed by `neighbors_upto` lies in the grid.
    pub proof fn lemma_neighbors_in_bounds(&self, p: Position, k: nat)
        ensures
            forall|i: int|
                0 <= i < self.neighbors_upto(p, k).len() ==> self.in_bounds(
                    #[trigger] self.neighbors_upto(p, k)[i],
                ),
        decreases k,
    {
        if k > 0 {
            self.lemma_neighbors_in_bounds(p, (k - 1) as nat);
            let before = self.neighbors_upto(p, (k - 1) as nat);
            let after = self.neighbors_upto(p, k);
            assert forall|i: int| 0 <= i < after.len() implies self.in_bounds(#[trigger] after[i]) by {
                if i < before.len() {
                    assert(after[i] == before[i]);
                }
            }
        }
    }

    /// Yields the elements of the cells that `pattern` visits, starting from `pos`.
    pub fn pattern<P: Pattern>(&self, pos: Position, pattern: P) -> (r: PatternIter<'_, T, P>)
        requires
            self.wf(),
        ensures
            r.wf(),
            r.grid_view() == *self,
            r.prev() == pos,
            r.origin() == pos,
            r.pattern_view() == pattern,
            r.count() == 0,
            !r.finished(),
    {
        PatternIter::new(self, pos, pattern)
    }

    /// Yields mutable references to the elements of the cells that `pattern` visits,
    /// starting from `pos`.
    pub fn pattern_mut<P: Pattern>(&mut self, pos: Position, pattern: P) -> (r: PatternIterMut<
        '_,
        T,
        P,
    >)
        requires
            old(self).wf(),
        ensures
            r.wf(),
            r.grid_view() == *old(self),
            r.prev() == pos,
            r.origin() == pos,
            r.pattern_view() == pattern,
            r.count() == 0,
            !r.finished(),
    {
        PatternIterMut::new(self, pos, pattern)
    }

    /// Moves the value at `pos` to `to` and leaves `value` at `pos`.
    /// Both positions must lie in the grid; when they are one, the moved value stays.
    pub fn move_and_leave(&mut self, pos: Position, to: Position, value: T)
        requires
            old(self).wf(),
            old(self).in_bounds(pos),
            old(self).in_bounds(to),
        ensures
            final(self).cells() == old(self).cells().update(old(self).index_of(pos), value).update(
                old(self).index_of(to),
                old(self).at(pos),
            ),
            final(self).same_shape(old(self)),
    {
        let idx_to = self.translate(to);
        proof {
            self.lemma_index(pos);
        }
        let replaced = self.replace(pos, value);
        match replaced {
            Some(moved) => self.items.set(idx_to, moved),
            None => {},
        }
    }
}

impl<T: Clone> Grid<T> {
    /// Creates a `width` by `height` grid with a clone of `default_value` in every cell.
    /// `width` and `height` must not be zero.
    pub fn new(width: usize, height: usize, default_value: T) -> (r: Grid<T>)
        requires
            width > 0,
            height > 0,
            width * height <= usize::MAX,
        ensures
            r.wf(),
            r.width() == width,
            r.height() == height,
            r.cells().len() == width * height,
            forall|i: int| 0 <= i < r.cells().len() ==> cloned(default_value, #[trigger] r.cells()[i]),
    {
        Grid { width, height, items: vec![default_value; width * height] }
    }
}

impl<T: Default> Grid<T> {
    /// Returns the value at `pos` and leaves `T::default()` in its place,
    /// or `None` when `pos` is out of bounds.
    pub fn replace_default(&mut self, pos: Position) -> (r: Option<T>)
        requires
            old(self).wf(),
        ensures
            r == old(self).lookup(pos),
            r is Some ==> final(self).cells() == old(self).cells().update(
                old(self).index_of(pos),
                final(self).at(pos),
            ),
            r is Some ==> call_ensures(T::default, (), final(self).at(pos)),
            r is None ==> final(self).cells() == old(self).cells(),
            final(self).same_shape(old(self)),
    {
        let r = self.replace(pos, T::default());
        proof {
            if r is Some {
                old(self).lemma_index(pos);
            }
        }
        r
    }

    /// Moves the value at `pos` to `to` and leaves `T::default()` at `pos`.
    /// Both positions must lie in the grid.
    pub fn move_to(&mut self, pos: Position, to: Position)
        requires
            old(self).wf(),
            old(self).in_bounds(pos),
            old(self).in_bounds(to),
        ensures
            final(self).at(to) == old(self).at(pos),
            old(self).index_of(pos) != old(self).index_of(to) ==> call_ensures(
                T::default,
                (),
                final(self).at(pos),
            ),
            forall|i: int|
                0 <= i < old(self).cells().len() && i != old(self).index_of(pos) && i
                    != old(self).index_of(to) ==> #[trigger] final(self).cells()[i]
                    == old(self).cells()[i],
            final(self).cells().len() == old(self).cells().len(),
            final(self).same_shape(old(self)),
    {
        let idx_to = self.translate(to);
        proof {
            self.lemma_index(pos);
        }
        let replaced = self.replace_default(pos);
        match replaced {
            Some(moved) => self.items.set(idx_to, moved),
            None => {},
        }
    }
}

} // verus!
