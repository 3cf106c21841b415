use gridit::pattern::{DirectionPattern, JumpsPattern, Repeat, SideStepsPattern, StepsPattern};
use gridit::{Grid, GridBuilder, Position, PositionsEnumerator, Step};

#[test]
fn new_fills_every_cell_with_the_default() {
    let grid = Grid::new(4, 3, 7u32);
    assert_eq!(grid.size(), (4, 3));
    assert_eq!(grid.len(), 12);
    let mut iter = grid.iter();
    let mut n = 0;
    while let Some(v) = iter.next() {
        assert_eq!(*v, 7);
        n += 1;
    }
    assert_eq!(n, 12);
}

#[test]
fn one_by_one_grid() {
    let grid = Grid::new(1, 1, 'a');
    assert_eq!(grid.get(Position::new(0, 0)), Some(&'a'));
    assert_eq!(grid.get(Position::new(1, 0)), None);
    let mut neighbors = grid.neighbors(Position::new(0, 0));
    assert_eq!(neighbors.next(), None);
}

#[test]
fn get_is_present_exactly_in_bounds_and_matches_unchecked() {
    let grid = Grid::from((0..6).collect::<Vec<u32>>(), 3, 2);
    for y in 0..2 {
        for x in 0..3 {
            let p = Position::new(x, y);
            assert!(grid.is_bounds(p));
            assert_eq!(grid.get(p), Some(grid.get_unchecked(p)));
            assert_eq!(grid.get(p), Some(&((y * 3 + x) as u32)));
        }
    }
    assert_eq!(grid.get(Position::new(3, 0)), None);
    assert_eq!(grid.get(Position::new(0, 2)), None);
    assert_eq!(grid.get(Position::new(usize::MAX, 0)), None);
    assert!(!grid.is_bounds(Position::new(2, 2)));
}

#[test]
fn get_mut_writes_into_the_grid() {
    let mut grid = Grid::new(2, 2, 0);
    if let Some(v) = grid.get_mut(Position::new(1, 0)) {
        *v = 5;
    }
    assert!(grid.get_mut(Position::new(2, 0)).is_none());
    *grid.get_mut_unchecked(Position::new(0, 1)) = 6;
    assert_eq!(grid, Grid::from(vec![0, 5, 6, 0], 2, 2));
}

#[test]
fn set_reports_whether_it_wrote() {
    let mut grid = Grid::new(2, 2, 0);
    assert_eq!(grid.set(Position::new(1, 1), 4), Some(()));
    assert_eq!(grid.set(Position::new(2, 1), 9), None);
    assert_eq!(grid, Grid::from(vec![0, 0, 0, 4], 2, 2));
}

#[test]
fn replace_returns_prior_value_and_leaves_new_one() {
    let mut grid = Grid::from(vec![1, 2, 3, 4], 2, 2);
    assert_eq!(grid.replace(Position::new(0, 1), 30), Some(3));
    assert_eq!(grid.get(Position::new(0, 1)), Some(&30));
    assert_eq!(grid.replace(Position::new(0, 2), 99), None);
    assert_eq!(grid, Grid::from(vec![1, 2, 30, 4], 2, 2));
}

#[test]
fn replace_default_out_of_bounds_is_none() {
    let mut grid = Grid::new(2, 2, 5u8);
    assert_eq!(grid.replace_default(Position::new(5, 5)), None);
    assert_eq!(grid.replace_default(Position::new(0, 0)), Some(5));
    assert_eq!(grid, Grid::from(vec![0, 5, 5, 5], 2, 2));
}

#[test]
fn swap_exchanges_two_cells_and_nothing_else() {
    let mut grid = Grid::from((0..6).collect::<Vec<i32>>(), 3, 2);
    grid.swap(Position::new(0, 0), Position::new(2, 1));
    assert_eq!(grid, Grid::from(vec![5, 1, 2, 3, 4, 0], 3, 2));
    grid.swap(Position::new(1, 1), Position::new(1, 1));
    assert_eq!(grid, Grid::from(vec![5, 1, 2, 3, 4, 0], 3, 2));
}

#[test]
fn move_to_the_same_cell_keeps_the_value() {
    let mut grid = Grid::from(vec![1, 2, 3, 4], 2, 2);
    grid.move_to(Position::new(1, 0), Position::new(1, 0));
    assert_eq!(grid, Grid::from(vec![1, 2, 3, 4], 2, 2));
    grid.move_and_leave(Position::new(0, 1), Position::new(0, 1), 9);
    assert_eq!(grid, Grid::from(vec![1, 2, 3, 4], 2, 2));
}

#[test]
fn grid_overlay_is_row_major() {
    let grid = Grid::from((0..6).collect::<Vec<i32>>(), 3, 2);
    let mut iter = grid.iter().grid_positions();
    let expected = [(0, 0), (1, 0), (2, 0), (0, 1), (1, 1), (2, 1)];
    for (i, (x, y)) in expected.iter().enumerate() {
        assert_eq!(iter.next(), Some((Position::new(*x, *y), &(i as i32))));
    }
    assert_eq!(iter.next(), None);
}

#[test]
fn positions_cover_the_grid_row_major() {
    let grid = Grid::new(2, 3, 0u8);
    let mut positions = grid.positions();
    let mut seen = Vec::new();
    while let Some(p) = positions.next() {
        seen.push((p.x, p.y));
    }
    assert_eq!(seen, vec![(0, 0), (1, 0), (0, 1), (1, 1), (0, 2), (1, 2)]);
}

#[test]
fn neighbors_of_center_and_corner_then_none() {
    let grid = Grid::from((0..9).collect::<Vec<i32>>(), 3, 3);
    let mut neighbors = grid.neighbors(Position::new(1, 1));
    let mut seen = Vec::new();
    while let Some(v) = neighbors.next() {
        seen.push(*v);
    }
    assert_eq!(seen, vec![0, 1, 2, 3, 5, 6, 7, 8]);

    let mut neighbors = grid.neighbors(Position::new(0, 0));
    assert_eq!(neighbors.next(), Some(&1));
    assert_eq!(neighbors.next(), Some(&3));
    assert_eq!(neighbors.next(), Some(&4));
    assert_eq!(neighbors.next(), None);
}

#[test]
fn sidesteps_from_corner_skip_only_the_offsets_outside() {
    let grid = Grid::from((0..9).collect::<Vec<i32>>(), 3, 3);
    let steps: Vec<(i32, i32)> = vec![(1, 0), (-1, 0), (0, 1), (0, -1), (1, 1), (2, 2)];
    let pattern = SideStepsPattern::new(steps.into_iter().map(Step::from).collect());
    let mut iter = grid.pattern(Position::new(0, 0), pattern).grid_positions();
    assert_eq!(iter.next(), Some((Position::new(1, 0), &1)));
    assert_eq!(iter.next(), Some((Position::new(0, 1), &3)));
    assert_eq!(iter.next(), Some((Position::new(1, 1), &4)));
    assert_eq!(iter.next(), Some((Position::new(2, 2), &8)));
    assert_eq!(iter.next(), None);
}

#[test]
fn jumps_keep_order_and_skip_outside() {
    let grid = Grid::from((0..9).collect::<Vec<i32>>(), 3, 3);
    let jumps: Vec<(usize, usize)> = vec![(3, 0), (2, 0), (0, 3), (0, 2), (9, 9)];
    let pattern = JumpsPattern::new(jumps.into_iter().map(Position::from).collect());
    let mut iter = grid.pattern(Position::new(1, 1), pattern);
    assert_eq!(iter.next(), Some(&2));
    assert_eq!(iter.next(), Some(&6));
    assert_eq!(iter.next(), None);
}

#[test]
fn step_leaving_the_grid_ends_the_traversal() {
    let grid = Grid::from((0..9).collect::<Vec<i32>>(), 3, 3);
    let steps: Vec<(i32, i32)> = vec![(-1, 0), (1, 0), (1, 0)];
    let pattern = StepsPattern::new(steps.into_iter().map(Step::from).collect());
    let mut iter = grid.pattern(Position::new(0, 0), pattern);
    assert_eq!(iter.next(), None);
    assert_eq!(iter.next(), None);
}

#[test]
fn direction_step_that_underflows_yields_nothing() {
    let grid = Grid::from((0..4).collect::<Vec<i32>>(), 2, 2);
    let pattern = DirectionPattern::new(Step::from((0isize, -1)), Repeat::TillEnd);
    let mut iter = grid.pattern(Position::new(1, 0), pattern);
    assert_eq!(iter.next(), None);

    let pattern = DirectionPattern::new(Step::new(usize::MAX, 0), Repeat::TillEnd);
    let mut iter = grid.pattern(Position::new(1, 0), pattern);
    assert_eq!(iter.next(), None);
}

#[test]
fn repeat_times_zero_yields_nothing() {
    let grid = Grid::from((0..4).collect::<Vec<i32>>(), 2, 2);
    let pattern = DirectionPattern::new(Step::new(1, 0), Repeat::Times(0));
    let mut iter = grid.pattern(Position::new(0, 0), pattern);
    assert_eq!(iter.next(), None);
}

#[test]
fn repeat_once_with_a_standing_step() {
    let grid = Grid::from((0..4).collect::<Vec<i32>>(), 2, 2);
    let pattern = DirectionPattern::new(Step::new(0, 0), Repeat::Once);
    let mut iter = grid.pattern(Position::new(1, 1), pattern);
    assert_eq!(iter.next(), Some(&3));
    assert_eq!(iter.next(), None);
}

#[test]
fn overlay_values_match_direct_lookup_for_every_kind() {
    let grid = Grid::from((0..12).collect::<Vec<i32>>(), 4, 3);

    let mut it = grid.iter().grid_positions();
    let mut n = 0;
    while let Some((p, v)) = it.next() {
        assert_eq!(grid.get(p), Some(v));
        n += 1;
    }
    assert_eq!(n, 12);

    let mut it = grid.row(2).grid_positions();
    while let Some((p, v)) = it.next() {
        assert_eq!(p.y, 2);
        assert_eq!(grid.get(p), Some(v));
    }

    let mut it = grid.column(3).grid_positions();
    while let Some((p, v)) = it.next() {
        assert_eq!(p.x, 3);
        assert_eq!(grid.get(p), Some(v));
    }

    let mut it = grid.neighbors(Position::new(3, 2)).grid_positions();
    let mut n = 0;
    while let Some((p, v)) = it.next() {
        assert_eq!(grid.get(p), Some(v));
        n += 1;
    }
    assert_eq!(n, 3);

    let steps: Vec<(i32, i32)> = vec![(5, 0), (1, 1), (-1, 0), (0, -9), (2, 1)];
    let pattern = SideStepsPattern::new(steps.into_iter().map(Step::from).collect());
    let mut it = grid.pattern(Position::new(1, 1), pattern).grid_positions();
    let mut seen = Vec::new();
    while let Some((p, v)) = it.next() {
        assert_eq!(grid.get(p), Some(v));
        seen.push(*v);
    }
    assert_eq!(seen, vec![10, 4, 11]);
}

#[test]
fn mutable_iterators_write_into_the_grid() {
    let mut grid = Grid::from((0..6).collect::<Vec<i32>>(), 3, 2);
    let mut it = grid.iter_mut();
    while let Some(v) = it.next() {
        *v += 10;
    }
    assert_eq!(grid, Grid::from(vec![10, 11, 12, 13, 14, 15], 3, 2));

    let mut it = grid.row_mut(1);
    while let Some(v) = it.next() {
        *v = 0;
    }
    let mut it = grid.column_mut(0);
    while let Some(v) = it.next() {
        *v = 7;
    }
    assert_eq!(grid, Grid::from(vec![7, 11, 12, 7, 0, 0], 3, 2));
}

#[test]
fn pattern_mut_writes_into_the_visited_cells() {
    let mut grid = Grid::new(3, 3, 0);
    let pattern = DirectionPattern::new(Step::new(1, 1), Repeat::TillEnd);
    let mut it = grid.pattern_mut(Position::new(0, 0), pattern).grid_positions();
    while let Some((p, v)) = it.next() {
        *v = p.x + 1;
    }
    assert_eq!(grid, Grid::from(vec![0, 0, 0, 0, 2, 0, 0, 0, 3], 3, 3));
}

#[test]
fn neighbors_mut_writes_around_the_center() {
    let mut grid = Grid::new(3, 2, 0);
    let mut it = grid.neighbors_mut(Position::new(0, 0)).grid_positions();
    while let Some((p, v)) = it.next() {
        *v = 10 * p.y + p.x;
    }
    assert_eq!(grid, Grid::from(vec![0, 1, 0, 10, 11, 0], 3, 2));
}

#[test]
fn step_conversions() {
    assert_eq!(Step::from((1usize, 2usize)), Step::new(1, 2));
    assert_eq!(Step::from((-2isize, 3isize)), Step::new(2, 3).negate_x());
    assert_eq!(Step::from((2i32, -2i32)), Step::new(2, 2).negate_y());
    assert_eq!(Step::new(2, 2).negate_x().negate_x(), Step::from((-2isize, 2isize)));
    assert_eq!(Step::from((isize::MIN, 0isize)), Step::new(isize::MIN.unsigned_abs(), 0).negate_x());
    assert_eq!(Step::from((i32::MIN, 0i32)), Step::new(i32::MIN.unsigned_abs() as usize, 0).negate_x());
}

#[test]
fn position_conversions() {
    let p: Position = (3, 4).into();
    assert_eq!(p, Position::new(3, 4));
    let t: (usize, usize) = p.into();
    assert_eq!(t, (3, 4));
}

#[test]
fn builder_keeps_cells_and_dimensions() {
    let grid = GridBuilder::new().width(3).height(2).from(vec![1, 2, 3, 4, 5, 6]).build();
    assert_eq!(grid.size(), (3, 2));
    assert_eq!(grid.get(Position::new(2, 1)), Some(&6));
}
