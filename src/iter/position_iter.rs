use vstd::prelude::*;
use crate::grid::Position;

verus! {

/// Yields every position of a grid, row after row.
pub struct PositionsIter {
    pub(crate) len: usize,
    pub(crate) width: usize,
    pub(crate) idx: usize,
}

impl PositionsIter {
    pub(crate) fn new(len: usize, width: usize) -> (r: PositionsIter)
        requires
            width > 0,
        ensures
            r.wf(),
            r.remaining() == Seq::new(
                len as nat,
                |i: int| Position { x: (i % width as int) as usize, y: (i / width as int) as usize },
            ),
    {
        let r = PositionsIter { len, width, idx: 0 };
        assert(r.remaining() =~= Seq::new(
            len as nat,
            |i: int| Position { x: (i % width as int) as usize, y: (i / width as int) as usize },
        ));
        r
    }

    /// The width of the grid.
    pub closed spec fn width(&self) -> nat {
        self.width as nat
    }

    /// The number of cells of the grid.
    pub closed spec fn len(&self) -> nat {
        self.len as nat
    }

    /// How many positions have been yielded.
    pub closed spec fn index(&self) -> nat {
        self.idx as nat
    }

    pub open spec fn wf(&self) -> bool {
        self.width() > 0 && self.index() <= self.len()
    }

    /// The positions still to come, in order.
    pub open spec fn remaining(&self) -> Seq<Position> {
        Seq::new(
            (self.len() - self.index()) as nat,
            |i: int|
                Position {
                    x: ((self.index() + i) % self.width() as int) as usize,
                    y: ((self.index() + i) / self.width() as int) as usize,
                },
        )
    }

    /// Returns the next position, or `None` once every position was yielded.
    pub fn next(&mut self) -> (r: Option<Position>)
        requires
            old(self).wf(),
        ensures
            final(self).wf(),
            r is Some <==> old(self).remaining().len() > 0,
            r is Some ==> r->Some_0 == old(self).remaining()[0],
            r is Some ==> final(self).remaining() == old(self).remaining().drop_first(),
            r is None ==> *final(self) == *old(self),
    {
        if self.idx >= self.len {
            return None;
        }
        let x = self.idx % self.width;
        let y = self.idx / self.width;
        self.idx = self.idx + 1;
        assert(self.remaining() =~= old(self).remaining().drop_first());
        Some(Position::new(x, y))
    }
}

} // verus!
