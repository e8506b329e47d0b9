use mars_rover::grid::Grid;
use mars_rover::rover::Direction;
use mars_rover::rover::Robot;

#[test]
fn rotate_left_is_a_four_cycle() {
    for d in [Direction::N, Direction::E, Direction::S, Direction::W] {
        let mut r = Robot::new(2, 2, d);
        r.rotate_left();
        r.rotate_left();
        r.rotate_left();
        r.rotate_left();
        assert_eq!(r.direction, d);
        assert_eq!((r.x, r.y, r.lost), (2, 2, false));
    }
}

#[test]
fn rotate_right_is_a_four_cycle() {
    for d in [Direction::N, Direction::E, Direction::S, Direction::W] {
        let mut r = Robot::new(2, 2, d);
        r.rotate_right();
        r.rotate_right();
        r.rotate_right();
        r.rotate_right();
        assert_eq!(r.direction, d);
        assert_eq!((r.x, r.y, r.lost), (2, 2, false));
    }
}

#[test]
fn rotations_are_mutual_inverses() {
    for d in [Direction::N, Direction::E, Direction::S, Direction::W] {
        let mut r = Robot::new(0, 0, d);
        r.rotate_left();
        r.rotate_right();
        assert_eq!(r.direction, d);
        r.rotate_right();
        r.rotate_left();
        assert_eq!(r.direction, d);
    }
}

#[test]
fn rotations_step_through_the_compass() {
    let mut r = Robot::new(0, 0, Direction::N);
    r.rotate_left();
    assert_eq!(r.direction, Direction::W);
    r.rotate_left();
    assert_eq!(r.direction, Direction::S);
    r.rotate_left();
    assert_eq!(r.direction, Direction::E);
    let mut q = Robot::new(0, 0, Direction::N);
    q.rotate_right();
    assert_eq!(q.direction, Direction::E);
    q.rotate_right();
    assert_eq!(q.direction, Direction::S);
    q.rotate_right();
    assert_eq!(q.direction, Direction::W);
}

#[test]
fn move_forward_steps_one_cell_in_each_direction() {
    let grid = Grid::new(5, 5);
    let cases = [
        (Direction::N, (2, 3)),
        (Direction::E, (3, 2)),
        (Direction::S, (2, 1)),
        (Direction::W, (1, 2)),
    ];
    for (d, expected) in cases {
        let mut r = Robot::new(2, 2, d);
        r.move_forward(&grid);
        assert_eq!((r.x, r.y), expected);
        assert_eq!(r.direction, d);
        assert!(!r.lost);
    }
}

#[test]
fn move_then_half_turn_then_move_returns_to_start() {
    let grid = Grid::new(5, 5);
    for d in [Direction::N, Direction::E, Direction::S, Direction::W] {
        let mut r = Robot::new(2, 2, d);
        r.move_forward(&grid);
        r.rotate_left();
        r.rotate_left();
        r.move_forward(&grid);
        assert_eq!((r.x, r.y, r.lost), (2, 2, false));

        let mut q = Robot::new(2, 2, d);
        q.move_forward(&grid);
        q.rotate_right();
        q.rotate_right();
        q.move_forward(&grid);
        assert_eq!((q.x, q.y, q.lost), (2, 2, false));
    }
}

#[test]
fn moving_off_each_edge_loses_the_rover() {
    let grid = Grid::new(5, 5);
    let cases = [
        (5, 5, Direction::N),
        (5, 5, Direction::E),
        (0, 0, Direction::S),
        (0, 0, Direction::W),
    ];
    for (x, y, d) in cases {
        let mut r = Robot::new(x, y, d);
        r.move_forward(&grid);
        assert!(r.lost);
        assert_eq!((r.x, r.y, r.direction), (x, y, d));
    }
}

#[test]
fn lost_rover_ignores_every_operation() {
    let grid = Grid::new(5, 5);
    let mut r = Robot::new(5, 3, Direction::E);
    r.move_forward(&grid);
    assert!(r.lost);
    let frozen = r.state();
    r.rotate_left();
    assert_eq!(r.state(), frozen);
    r.rotate_right();
    assert_eq!(r.state(), frozen);
    r.move_forward(&grid);
    assert_eq!(r.state(), frozen);
    assert_eq!(frozen, (5, 3, Direction::E, true));
}

#[test]
fn launch_off_the_grid_is_lost_by_its_first_move() {
    let grid = Grid::new(5, 5);
    let mut r = Robot::new(7, 3, Direction::N);
    assert!(!r.lost);
    r.move_forward(&grid);
    assert!(r.lost);
    assert_eq!((r.x, r.y, r.direction), (7, 3, Direction::N));
}

#[test]
fn grid_reports_its_bounds() {
    let grid = Grid::new(5, 7);
    assert_eq!(grid.max_x(), 5);
    assert_eq!(grid.max_y(), 7);
}

#[test]
fn new_rover_starts_active_at_its_pose() {
    let r = Robot::new(1, 2, Direction::N);
    assert_eq!(r.state(), (1, 2, Direction::N, false));
}

#[test]
fn state_round_trips_through_from_state() {
    let grid = Grid::new(5, 5);
    let mut r = Robot::new(4, 1, Direction::W);
    r.rotate_right();
    r.move_forward(&grid);
    let (x, y, d, lost) = r.state();
    let rebuilt = Robot::from_state(x, y, d, lost);
    assert_eq!(rebuilt, r);
    assert_eq!(rebuilt.state(), r.state());
}

#[test]
fn state_round_trips_for_a_lost_rover() {
    let grid = Grid::new(1, 1);
    let mut r = Robot::new(1, 1, Direction::E);
    r.move_forward(&grid);
    assert!(r.lost);
    let (x, y, d, lost) = r.state();
    let rebuilt = Robot::from_state(x, y, d, lost);
    assert_eq!(rebuilt, r);
    assert_eq!(rebuilt.state(), (1, 1, Direction::E, true));
}
