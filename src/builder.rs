use vstd::prelude::*;
use crate::grid::Grid;

verus! {

/// Collects the cells and dimensions of a grid, then builds it.
pub struct GridBuilder<T> {
    cells: Option<Vec<T>>,
    width: Option<usize>,
    height: Option<usize>,
}

impl<T> GridBuilder<T> {
    /// The cells given so far.
    pub closed spec fn given_cells(&self) -> Option<Seq<T>> {
        match self.cells {
            Some(v) => Some(v@),
            None => None,
        }
    }

    /// The width given so far.
    pub closed spec fn given_width(&self) -> Option<usize> {
        self.width
    }

    /// The height given so far.
    pub closed spec fn given_height(&self) -> Option<usize> {
        self.height
    }

    /// Whether `build` can make a grid: cells, width and height were all given, the
    /// dimensions are not zero, and the cells fill them exactly.
    pub open spec fn ready(&self) -> bool {
        &&& self.given_cells() is Some
        &&& self.given_width() is Some
        &&& self.given_height() is Some
        &&& self.given_width()->Some_0 > 0
        &&& self.given_height()->Some_0 > 0
        &&& self.given_width()->Some_0 * self.given_height()->Some_0 <= usize::MAX
        &&& self.given_cells()->Some_0.len() == self.given_width()->Some_0
            * self.given_height()->Some_0
    }

    pub fn new() -> (r: GridBuilder<T>)
        ensures
            r.given_cells() is None,
            r.given_width() is None,
            r.given_height() is None,
    {
        GridBuilder { cells: None, width: None, height: None }
    }

    /// Sets the cells, row after row.
    pub fn from(self, cells: Vec<T>) -> (r: GridBuilder<T>)
        ensures
            r.given_cells() == Some(cells@),
            r.given_width() == self.given_width(),
            r.given_height() == self.given_height(),
    {
        GridBuilder { cells: Some(cells), width: self.width, height: self.height }
    }

    /// Sets the width.
    pub fn width(self, width: usize) -> (r: GridBuilder<T>)
        ensures
            r.given_cells() == self.given_cells(),
            r.given_width() == Some(width),
            r.given_height() == self.given_height(),
    {
        GridBuilder { cells: self.cells, width: Some(width), height: self.height }
    }

    /// Sets the height.
    pub fn height(self, height: usize) -> (r: GridBuilder<T>)
        ensures
            r.given_cells() == self.given_cells(),
            r.given_width() == self.given_width(),
            r.given_height() == Some(height),
    {
        GridBuilder { cells: self.cells, width: self.width, height: Some(height) }
    }

    /// Builds the grid from the cells and dimensions given.
    pub fn build(self) -> (r: Grid<T>)
        requires
            self.ready(),
        ensures
            r.wf(),
            r.cells() == self.given_cells()->Some_0,
            r.width() == self.given_width()->Some_0,
            r.height() == self.given_height()->Some_0,
    {
        Grid::from(self.cells.unwrap(), self.width.unwrap(), self.height.unwrap())
    }
}

} // verus!
