//! A dense two-dimensional grid, with iterators over its rows, columns, neighbours and
//! over cells picked by movement patterns; each iterator can also report the position
//! of every element it yields.
mod builder;
mod grid;
pub mod iter;
pub mod pattern;
mod step;

pub use builder::GridBuilder;
pub use grid::{
    lemma_checked_matches_unchecked, lemma_index_in_range, neighbor_dx, neighbor_dy, Grid, Position,
};
pub use iter::{Positions, PositionsEnumerator};
pub use step::Step;
