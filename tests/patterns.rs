use gridit::pattern::{DirectionPattern, JumpsPattern, Repeat, SideStepsPattern, StepsPattern};
use gridit::{Grid, Position, PositionsEnumerator, Step};

// 0, 1, 2, 3
// 4, 5, 6, 7
// 8, 9,10,11
//12,13,14,15
#[test]
fn pattern_iter_direction_north() {
    let grid = Grid::from((0..16).collect(), 4, 4);

    let pattern = DirectionPattern::new(Step::from((0isize, -1)), Repeat::TillEnd);
    let mut iter = grid.pattern(Position::new(2, 3), pattern);
    assert_eq!(iter.next(), Some(&10));
    assert_eq!(iter.next(), Some(&6));
    assert_eq!(iter.next(), Some(&2));
    assert_eq!(iter.next(), None);
}

#[test]
fn pattern_iter_direction_east() {
    let grid = Grid::from((0..16).collect(), 4, 4);

    let pattern = DirectionPattern::new(Step::from((1isize, 0)), Repeat::TillEnd);
    let mut iter = grid.pattern(Position::new(0, 2), pattern);
    assert_eq!(iter.next(), Some(&9));
    assert_eq!(iter.next(), Some(&10));
    assert_eq!(iter.next(), Some(&11));
    assert_eq!(iter.next(), None);
}

#[test]
fn pattern_iter_direction_south_two_times() {
    let grid = Grid::from((0..16).collect(), 4, 4);

    let pattern = DirectionPattern::new(Step::from((0i32, 1i32)), Repeat::Times(2));
    let mut iter = grid.pattern(Position::new(0, 0), pattern);
    assert_eq!(iter.next(), Some(&4));
    assert_eq!(iter.next(), Some(&8));
    assert_eq!(iter.next(), None);
}

#[test]
fn patter_iter_direction_west_once() {
    let grid = Grid::from((0..16).collect(), 4, 4);

    let pattern = DirectionPattern::new(Step::from((-1i32, 0i32)), Repeat::Once);
    let mut iter = grid.pattern(Position::new(2, 3), pattern);
    assert_eq!(iter.next(), Some(&13));
    assert_eq!(iter.next(), None);
}

#[test]
fn pattern_iter_direction_positions() {
    let grid = Grid::from((0..16).collect(), 4, 4);

    let pattern = DirectionPattern::new(Step::from((-1i32, -1i32)), Repeat::Times(2));
    let mut iter = grid.pattern(Position::new(3, 3), pattern).grid_positions();
    assert_eq!(iter.next(), Some((Position::new(2, 2), &10)));
    assert_eq!(iter.next(), Some((Position::new(1, 1), &5)));
    assert_eq!(iter.next(), None);
}

#[test]
fn pattern_iter_steps() {
    let grid = Grid::from((0..9).collect(), 3, 3);

    let steps: Vec<(i32, i32)> = vec![
        (0, -1),
        (1, 0),
        (1, 0),
        (-2, 1),
        (1, 0),
        (1, 0),
        (-2, 1),
        (1, 0),
        (1, 0),
    ];
    let pattern = StepsPattern::new(steps.into_iter().map(Step::from).collect());
    let mut iter = grid.pattern(Position::new(0, 1), pattern);

    assert_eq!(iter.next(), Some(&0));
    assert_eq!(iter.next(), Some(&1));
    assert_eq!(iter.next(), Some(&2));
    assert_eq!(iter.next(), Some(&3));
    assert_eq!(iter.next(), Some(&4));
    assert_eq!(iter.next(), Some(&5));
    assert_eq!(iter.next(), Some(&6));
    assert_eq!(iter.next(), Some(&7));
    assert_eq!(iter.next(), Some(&8));
    assert_eq!(iter.next(), None);
}

#[test]
fn pattern_iter_steps_cross() {
    let grid = Grid::from((0..9).collect(), 3, 3);

    let seq: Vec<(i32, i32)> = vec![
        (0, -1),
        (0, 1),
        (1, 0),
        (-1, 0),
        (0, 1),
        (0, -1),
        (-1, 0),
        (1, 0),
    ];
    let pattern = StepsPattern::new(seq.into_iter().map(Step::from).collect());
    let mut iter = grid.pattern(Position::new(1, 1), pattern);

    assert_eq!(iter.next(), Some(&1));
    assert_eq!(iter.next(), Some(&4));
    assert_eq!(iter.next(), Some(&5));
    assert_eq!(iter.next(), Some(&4));
    assert_eq!(iter.next(), Some(&7));
    assert_eq!(iter.next(), Some(&4));
    assert_eq!(iter.next(), Some(&3));
    assert_eq!(iter.next(), Some(&4));
    assert_eq!(iter.next(), None);
}

#[test]
fn pattern_iter_steps_positions() {
    let grid = Grid::from((0..8).collect(), 2, 4);

    let steps: Vec<(i32, i32)> = vec![(1, 0), (0, 1), (-1, 0), (0, -1)];
    let pattern = StepsPattern::new(steps.into_iter().map(Step::from).collect());

    let mut iter = grid.pattern(Position::new(0, 1), pattern).grid_positions();
    assert_eq!(iter.next(), Some((Position::new(1, 1), &3)));
    assert_eq!(iter.next(), Some((Position::new(1, 2), &5)));
    assert_eq!(iter.next(), Some((Position::new(0, 2), &4)));
    assert_eq!(iter.next(), Some((Position::new(0, 1), &2)));
    assert_eq!(iter.next(), None);
}

#[test]
fn pattern_iter_sidesteps() {
    let grid = Grid::from((0..9).collect(), 3, 3);

    // Every step longer than one leaves the grid and is skipped.
    let sidesteps: Vec<(i32, i32)> = vec![(-4, -4), (0, -1), (5, 5), (1, 0), (3, 3), (0, 1), (-1, 0)];
    let pattern = SideStepsPattern::new(sidesteps.into_iter().map(Step::from).collect());
    let mut iter = grid.pattern(Position::new(1, 1), pattern);
    assert_eq!(iter.next(), Some(&1));
    assert_eq!(iter.next(), Some(&5));
    assert_eq!(iter.next(), Some(&7));
    assert_eq!(iter.next(), Some(&3));
    assert_eq!(iter.next(), None);
}

#[test]
fn pattern_iter_sidesteps_positions() {
    let grid = Grid::from((0..9).collect(), 3, 3);

    // Every step longer than one leaves the grid and is skipped.
    let sidesteps: Vec<(i32, i32)> = vec![(0, -1), (5, 5), (1, 0), (3, 3), (0, 1), (-1, 0)];
    let pattern = SideStepsPattern::new(sidesteps.into_iter().map(Step::from).collect());
    let mut iter = grid.pattern(Position::new(1, 1), pattern).grid_positions();
    assert_eq!(iter.next(), Some((Position::new(1, 0), &1)));
    assert_eq!(iter.next(), Some((Position::new(2, 1), &5)));
    assert_eq!(iter.next(), Some((Position::new(1, 2), &7)));
    assert_eq!(iter.next(), Some((Position::new(0, 1), &3)));
    assert_eq!(iter.next(), None);
}

#[test]
fn pattern_iter_jumps() {
    let grid = Grid::from((0..9).collect(), 3, 3);

    let jumps: Vec<(usize, usize)> = vec![(4, 2), (2, 2), (1, 1), (0, 0), (5, 5), (32, 32), (1, 0)];
    let pattern = JumpsPattern::new(jumps.into_iter().map(Position::from).collect());
    let mut iter = grid.pattern(Position::new(0, 0), pattern);
    assert_eq!(iter.next(), Some(&8));
    assert_eq!(iter.next(), Some(&4));
    assert_eq!(iter.next(), Some(&0));
    assert_eq!(iter.next(), Some(&1));
    assert_eq!(iter.next(), None);
}

#[test]
fn pattern_iter_jumps_positions() {
    let grid = Grid::from((0..9).collect(), 3, 3);

    let jumps: Vec<(usize, usize)> = vec![(4, 2), (2, 2), (1, 1), (0, 0), (5, 5), (32, 32), (1, 0)];
    let pattern = JumpsPattern::new(jumps.into_iter().map(Position::from).collect());
    let mut iter = grid.pattern(Position::new(0, 0), pattern).grid_positions();
    assert_eq!(iter.next(), Some((Position::new(2, 2), &8)));
    assert_eq!(iter.next(), Some((Position::new(1, 1), &4)));
    assert_eq!(iter.next(), Some((Position::new(0, 0), &0)));
    assert_eq!(iter.next(), Some((Position::new(1, 0), &1)));
    assert_eq!(iter.next(), None);
}
