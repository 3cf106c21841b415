use vstd::prelude::*;
use crate::grid::Position;

verus! {

/// A signed offset on one axis, held as a sign and a magnitude so that
/// applying it to a coordinate never wraps silently.
#[derive(Copy, Clone, Debug, PartialEq, Eq, Structural)]
pub(crate) enum N {
    /// Negative offset of the given magnitude.
    N(usize),
    /// Positive offset of the given magnitude.
    P(usize),
}

impl N {
    /// The offset as an integer.
    pub(crate) open spec fn value(self) -> int {
        match self {
            N::N(n) => -(n as int),
            N::P(n) => n as int,
        }
    }

    /// The offset of value `v`, for `v` within `usize` in magnitude.
    pub(crate) open spec fn of_int(v: int) -> N {
        if v < 0 {
            N::N((-v) as usize)
        } else {
            N::P(v as usize)
        }
    }

    /// The magnitude of the offset.
    pub(crate) open spec fn magnitude(self) -> usize {
        match self {
            N::N(n) => n,
            N::P(n) => n,
        }
    }

    /// Adds the offset to coordinate `c`, or nothing when the result leaves `usize`.
    pub(crate) open spec fn apply(self, c: usize) -> Option<usize> {
        if 0 <= c + self.value() <= usize::MAX {
            Some((c + self.value()) as usize)
        } else {
            None
        }
    }

    pub(crate) fn get_number(&self) -> (r: usize)
        ensures
            r == self.magnitude(),
    {
        match self {
            N::N(n) => *n,
            N::P(n) => *n,
        }
    }

    pub(crate) fn from_isize(n: isize) -> (r: N)
        ensures
            r == N::of_int(n as int),
            r.value() == n as int,
    {
        if n < 0 {
            let m: isize = -(n + 1);
            N::N(m as usize + 1)
        } else {
            N::P(n as usize)
        }
    }

    pub(crate) fn from_i32(n: i32) -> (r: N)
        ensures
            r == N::of_int(n as int),
            r.value() == n as int,
    {
        if n < 0 {
            let m: i32 = -(n + 1);
            N::N(m as usize + 1)
        } else {
            N::P(n as usize)
        }
    }

    /// Subtracts (negative) or adds (positive) the magnitude to `n`, checked.
    pub(crate) fn checked_add_sub(&self, n: usize) -> (r: Option<usize>)
        ensures
            r == self.apply(n),
    {
        match self {
            N::N(pn) => n.checked_sub(*pn),
            N::P(pn) => n.checked_add(*pn),
        }
    }
}

/// A step or direction to another position of the grid, always relative to a position.
#[derive(Copy, Clone, Debug, PartialEq, Eq, Structural)]
pub struct Step {
    x: N,
    y: N,
}

impl Step {
    /// The offset along the x axis.
    pub closed spec fn dx(self) -> int {
        self.x.value()
    }

    /// The offset along the y axis.
    pub closed spec fn dy(self) -> int {
        self.y.value()
    }

    /// The step by offsets `dx` and `dy`, each at most `usize::MAX` in magnitude.
    pub closed spec fn with_offsets(dx: int, dy: int) -> Step {
        Step { x: N::of_int(dx), y: N::of_int(dy) }
    }

    /// The step built by `with_offsets` has the offsets it was given.
    pub proof fn lemma_with_offsets(dx: int, dy: int)
        requires
            -usize::MAX <= dx <= usize::MAX,
            -usize::MAX <= dy <= usize::MAX,
        ensures
            Step::with_offsets(dx, dy).dx() == dx,
            Step::with_offsets(dx, dy).dy() == dy,
    {
    }

    /// The position reached from `p` by this step, or nothing when an axis leaves `usize`.
    pub open spec fn apply(self, p: Position) -> Option<Position> {
        if 0 <= p.x + self.dx() <= usize::MAX && 0 <= p.y + self.dy() <= usize::MAX {
            Some(Position { x: (p.x + self.dx()) as usize, y: (p.y + self.dy()) as usize })
        } else {
            None
        }
    }

    /// Creates a step with non-negative offsets `x` and `y`.
    pub fn new(x: usize, y: usize) -> (r: Step)
        ensures
            r.dx() == x as int,
            r.dy() == y as int,
    {
        Step { x: N::P(x), y: N::P(y) }
    }

    /// Makes the x offset negative, keeping its magnitude.
    /// Useful for offsets too large for a signed integer.
    pub fn negate_x(self) -> (r: Step)
        ensures
            r.dx() == -(if self.dx() < 0 { -self.dx() } else { self.dx() }),
            r.dy() == self.dy(),
    {
        let mut s = self;
        s.x = N::N(s.x.get_number());
        s
    }

    /// Makes the y offset negative, keeping its magnitude.
    /// Useful for offsets too large for a signed integer.
    pub fn negate_y(self) -> (r: Step)
        ensures
            r.dx() == self.dx(),
            r.dy() == -(if self.dy() < 0 { -self.dy() } else { self.dy() }),
    {
        let mut s = self;
        s.y = N::N(s.y.get_number());
        s
    }

    /// Applies the step to `pos`; nothing when an axis under- or overflows.
    /// Whether the result lies in a grid is for the caller to check.
    pub fn take_step_from_position(&self, pos: Position) -> (r: Option<Position>)
        ensures
            r == self.apply(pos),
    {
        let x = match self.x.checked_add_sub(pos.x) {
            Some(x) => x,
            None => return None,
        };
        let y = match self.y.checked_add_sub(pos.y) {
            Some(y) => y,
            None => return None,
        };
        Some(Position::new(x, y))
    }
}

impl From<(usize, usize)> for Step {
    fn from(xy: (usize, usize)) -> (r: Step) {
        Step { x: N::P(xy.0), y: N::P(xy.1) }
    }
}

impl vstd::std_specs::convert::FromSpecImpl<(usize, usize)> for Step {
    open spec fn obeys_from_spec() -> bool {
        true
    }

    open spec fn from_spec(xy: (usize, usize)) -> Step {
        Step::with_offsets(xy.0 as int, xy.1 as int)
    }
}

impl From<(isize, isize)> for Step {
    fn from(xy: (isize, isize)) -> (r: Step) {
        Step { x: N::from_isize(xy.0), y: N::from_isize(xy.1) }
    }
}

impl vstd::std_specs::convert::FromSpecImpl<(isize, isize)> for Step {
    open spec fn obeys_from_spec() -> bool {
        true
    }

    open spec fn from_spec(xy: (isize, isize)) -> Step {
        Step::with_offsets(xy.0 as int, xy.1 as int)
    }
}

impl From<(i32, i32)> for Step {
    fn from(xy: (i32, i32)) -> (r: Step) {
        Step { x: N::from_i32(xy.0), y: N::from_i32(xy.1) }
    }
}

impl vstd::std_specs::convert::FromSpecImpl<(i32, i32)> for Step {
    open spec fn obeys_from_spec() -> bool {
        true
    }

    open spec fn from_spec(xy: (i32, i32)) -> Step {
        Step::with_offsets(xy.0 as int, xy.1 as int)
    }
}

} // verus!
