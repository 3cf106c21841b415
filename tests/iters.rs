use gridit::{Grid, Position, PositionsEnumerator};

#[test]
fn column_iter_column_iter() {
    let grid = Grid::from(vec![0, 1, 0, 1], 2, 2);

    let mut col_iter = grid.column(0);
    assert_eq!(col_iter.next(), Some(&0));
    assert_eq!(col_iter.next(), Some(&0));
    assert_eq!(col_iter.next(), None);

    let mut col_iter = grid.column(1);
    assert_eq!(col_iter.next(), Some(&1));
    assert_eq!(col_iter.next(), Some(&1));
    assert_eq!(col_iter.next(), None);
}

#[test]
fn column_iter_positions() {
    let grid = Grid::from(vec![0, 1, 0, 1], 2, 2);

    let mut col_pos = grid.column(0).grid_positions();
    assert_eq!(col_pos.next(), Some((Position::new(0, 0), &0)));
    assert_eq!(col_pos.next(), Some((Position::new(0, 1), &0)));
    assert_eq!(col_pos.next(), None);

    let mut col_pos = grid.column(1).grid_positions();
    assert_eq!(col_pos.next(), Some((Position::new(1, 0), &1)));
    assert_eq!(col_pos.next(), Some((Position::new(1, 1), &1)));
    assert_eq!(col_pos.next(), None);
}

#[test]
fn column_iter_column_iter_mut() {
    let mut grid = Grid::from(vec![0, 1, 0, 1], 2, 2);

    let mut col_iter = grid.column_mut(0);
    assert_eq!(col_iter.next(), Some(&mut 0));
    assert_eq!(col_iter.next(), Some(&mut 0));
    assert_eq!(col_iter.next(), None);

    let mut col_iter = grid.column_mut(1);
    assert_eq!(col_iter.next(), Some(&mut 1));
    assert_eq!(col_iter.next(), Some(&mut 1));
    assert_eq!(col_iter.next(), None);
}

#[test]
fn column_iter_mut_positions() {
    let mut grid = Grid::from(vec![0, 1, 0, 1], 2, 2);

    let mut col_pos = grid.column_mut(0).grid_positions();
    assert_eq!(col_pos.next(), Some((Position::new(0, 0), &mut 0)));
    assert_eq!(col_pos.next(), Some((Position::new(0, 1), &mut 0)));
    assert_eq!(col_pos.next(), None);

    let mut col_pos = grid.column_mut(1).grid_positions();
    assert_eq!(col_pos.next(), Some((Position::new(1, 0), &mut 1)));
    assert_eq!(col_pos.next(), Some((Position::new(1, 1), &mut 1)));
    assert_eq!(col_pos.next(), None);
}

#[test]
fn grid_iter_grid_iter() {
    let grid = Grid::from(vec![0, 1, 2], 3, 1);
    let mut grid_iter = grid.iter();
    assert_eq!(grid_iter.next(), Some(&0));
    assert_eq!(grid_iter.next(), Some(&1));
    assert_eq!(grid_iter.next(), Some(&2));
    assert_eq!(grid_iter.next(), None);
}

#[test]
fn grid_iter_grid_iter_positions() {
    let grid = Grid::new(2, 2, 9usize);
    let mut iter = grid.iter().grid_positions();

    assert_eq!(iter.next(), Some((Position::new(0, 0), &9)));
    assert_eq!(iter.next(), Some((Position::new(1, 0), &9)));
    assert_eq!(iter.next(), Some((Position::new(0, 1), &9)));
    assert_eq!(iter.next(), Some((Position::new(1, 1), &9)));
    assert_eq!(iter.next(), None);
}

#[test]
fn iters_grid_iter_positions() {
    let grid = Grid::new(2, 2, 9usize);
    let mut iter = grid.iter().grid_positions();

    assert_eq!(iter.next(), Some(((0, 0).into(), &9)));
    assert_eq!(iter.next(), Some(((1, 0).into(), &9)));
    assert_eq!(iter.next(), Some(((0, 1).into(), &9)));
    assert_eq!(iter.next(), Some(((1, 1).into(), &9)));
    assert_eq!(iter.next(), None);
}

#[test]
fn grid_iter_grid_iter_mut() {
    let mut grid = Grid::from(vec![0, 1, 2], 3, 1);
    let mut grid_iter = grid.iter_mut();
    assert_eq!(grid_iter.next(), Some(&mut 0));
    assert_eq!(grid_iter.next(), Some(&mut 1));
    assert_eq!(grid_iter.next(), Some(&mut 2));
    assert_eq!(grid_iter.next(), None);
}

#[test]
fn grid_iter_mut_positions() {
    let mut grid = Grid::new(2, 2, 9usize);
    let mut iter = grid.iter_mut().grid_positions();

    assert_eq!(iter.next(), Some((Position::new(0, 0), &mut 9)));
    assert_eq!(iter.next(), Some((Position::new(1, 0), &mut 9)));
    assert_eq!(iter.next(), Some((Position::new(0, 1), &mut 9)));
    assert_eq!(iter.next(), Some((Position::new(1, 1), &mut 9)));
    assert_eq!(iter.next(), None);
}

#[test]
fn neighbor_iter_neighbor_iter() {
    let grid = Grid::from((0..9).collect(), 3, 3);

    // middle
    let mut neighbors = grid.neighbors(Position::new(1, 1));
    assert_eq!(neighbors.next(), Some(&0));
    assert_eq!(neighbors.next(), Some(&1));
    assert_eq!(neighbors.next(), Some(&2));
    assert_eq!(neighbors.next(), Some(&3));
    assert_eq!(neighbors.next(), Some(&5));
    assert_eq!(neighbors.next(), Some(&6));
    assert_eq!(neighbors.next(), Some(&7));
    assert_eq!(neighbors.next(), Some(&8));

    // top left corner
    let mut neighbors = grid.neighbors(Position::new(0, 0));
    assert_eq!(neighbors.next(), Some(&1));
    assert_eq!(neighbors.next(), Some(&3));
    assert_eq!(neighbors.next(), Some(&4));

    // bottom right corner
    let mut neighbors = grid.neighbors(Position::new(2, 2));
    assert_eq!(neighbors.next(), Some(&4));
    assert_eq!(neighbors.next(), Some(&5));
    assert_eq!(neighbors.next(), Some(&7));

    // bottom mid
    let mut neighbors = grid.neighbors(Position::new(1, 2));
    assert_eq!(neighbors.next(), Some(&3));
    assert_eq!(neighbors.next(), Some(&4));
    assert_eq!(neighbors.next(), Some(&5));
    assert_eq!(neighbors.next(), Some(&6));
    assert_eq!(neighbors.next(), Some(&8));
}

#[test]
fn neighbor_iter_positions_3x3() {
    let grid = Grid::from((0..9).collect(), 3, 3);

    let mut neighbor_pos = grid.neighbors(Position::new(1, 1)).grid_positions();
    assert_eq!(neighbor_pos.next(), Some((Position::new(0, 0), &0)));
    assert_eq!(neighbor_pos.next(), Some((Position::new(1, 0), &1)));
    assert_eq!(neighbor_pos.next(), Some((Position::new(2, 0), &2)));
    assert_eq!(neighbor_pos.next(), Some((Position::new(0, 1), &3)));
    assert_eq!(neighbor_pos.next(), Some((Position::new(2, 1), &5)));
    assert_eq!(neighbor_pos.next(), Some((Position::new(0, 2), &6)));
    assert_eq!(neighbor_pos.next(), Some((Position::new(1, 2), &7)));
    assert_eq!(neighbor_pos.next(), Some((Position::new(2, 2), &8)));
    assert_eq!(neighbor_pos.next(), None);
}

#[test]
fn neighbor_iter_positions_2x2() {
    let grid = Grid::from((0..4).collect(), 2, 2);

    let mut neighbor_pos = grid.neighbors(Position::new(1, 1)).grid_positions();
    assert_eq!(neighbor_pos.next(), Some((Position::new(0, 0), &0)));
    assert_eq!(neighbor_pos.next(), Some((Position::new(1, 0), &1)));
    assert_eq!(neighbor_pos.next(), Some((Position::new(0, 1), &2)));
    assert_eq!(neighbor_pos.next(), None);
}

#[test]
fn row_iter_1x2() {
    let grid = Grid::from(vec![0, 1], 1, 2);

    let mut row_iter = grid.row(0);
    assert_eq!(row_iter.next(), Some(&0));
    assert_eq!(row_iter.next(), None);

    let mut row_iter = grid.row(1);
    assert_eq!(row_iter.next(), Some(&1));
    assert_eq!(row_iter.next(), None);
}

#[test]
fn row_iter_2x1() {
    let grid = Grid::from(vec![0, 1], 2, 1);

    let mut row_iter = grid.row(0);
    assert_eq!(row_iter.next(), Some(&0));
    assert_eq!(row_iter.next(), Some(&1));
    assert_eq!(row_iter.next(), None);
}

#[test]
fn row_iter_2x2() {
    let grid = Grid::from(vec![0, 0, 1, 1], 2, 2);
    let mut row_iter = grid.row(0);
    assert_eq!(row_iter.next(), Some(&0));
    assert_eq!(row_iter.next(), Some(&0));
    assert_eq!(row_iter.next(), None);

    let mut row_iter = grid.row(1);
    assert_eq!(row_iter.next(), Some(&1));
    assert_eq!(row_iter.next(), Some(&1));
    assert_eq!(row_iter.next(), None);
}

#[test]
fn row_iter_positions() {
    let grid = Grid::from(vec![0, 0, 0, 0, 1, 1, 1, 1, 2, 2, 2, 2], 4, 3);

    let mut row_pos = grid.row(1).grid_positions();
    assert_eq!(row_pos.next(), Some((Position::new(0, 1), &1)));
    assert_eq!(row_pos.next(), Some((Position::new(1, 1), &1)));
    assert_eq!(row_pos.next(), Some((Position::new(2, 1), &1)));
    assert_eq!(row_pos.next(), Some((Position::new(3, 1), &1)));
    assert_eq!(row_pos.next(), None);
}

#[test]
fn row_iter_mut_1x2() {
    let mut grid = Grid::from(vec![0, 1], 1, 2);

    let mut row_iter = grid.row_mut(0);
    assert_eq!(row_iter.next(), Some(&mut 0));
    assert_eq!(row_iter.next(), None);

    let mut row_iter = grid.row_mut(1);
    assert_eq!(row_iter.next(), Some(&mut 1));
    assert_eq!(row_iter.next(), None);
}

#[test]
fn row_iter_mut_2x1() {
    let mut grid = Grid::from(vec![0, 1], 2, 1);

    let mut row_iter = grid.row_mut(0);
    assert_eq!(row_iter.next(), Some(&mut 0));
    assert_eq!(row_iter.next(), Some(&mut 1));
    assert_eq!(row_iter.next(), None);
}

#[test]
fn row_iter_mut_2x2() {
    let mut grid = Grid::from(vec![0, 0, 1, 1], 2, 2);
    let mut row_iter = grid.row_mut(0);
    assert_eq!(row_iter.next(), Some(&mut 0));
    assert_eq!(row_iter.next(), Some(&mut 0));
    assert_eq!(row_iter.next(), None);

    let mut row_iter = grid.row_mut(1);
    assert_eq!(row_iter.next(), Some(&mut 1));
    assert_eq!(row_iter.next(), Some(&mut 1));
    assert_eq!(row_iter.next(), None);
}

#[test]
fn row_iter_mut_positions() {
    let mut grid = Grid::from(vec![0, 0, 0, 0, 1, 1, 1, 1, 2, 2, 2, 2], 4, 3);

    let mut row_pos = grid.row_mut(1).grid_positions();
    assert_eq!(row_pos.next(), Some((Position::new(0, 1), &mut 1)));
    assert_eq!(row_pos.next(), Some((Position::new(1, 1), &mut 1)));
    assert_eq!(row_pos.next(), Some((Position::new(2, 1), &mut 1)));
    assert_eq!(row_pos.next(), Some((Position::new(3, 1), &mut 1)));
    assert_eq!(row_pos.next(), None);

    let mut row_pos = grid.row_mut(0).grid_positions();
    assert_eq!(row_pos.next(), Some((Position::new(0, 0), &mut 0)));
    assert_eq!(row_pos.next(), Some((Position::new(1, 0), &mut 0)));
    assert_eq!(row_pos.next(), Some((Position::new(2, 0), &mut 0)));
    assert_eq!(row_pos.next(), Some((Position::new(3, 0), &mut 0)));
    assert_eq!(row_pos.next(), None);
}
